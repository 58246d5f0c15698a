use vstd::prelude::*;

use crate::config::ConfigNode;

verus! {

/// The reachability status of a node.
#[derive(Debug, Clone, Copy, PartialEq, Eq, Structural)]
pub enum NodeStatus {
    /// The node has not been probed yet.
    Unknown,
    /// The last probe of the node succeeded.
    Up,
    /// The last probe failed, but the node was not considered down before it.
    Pending,
    /// At least two consecutive probes failed.
    Down,
}

/// What one reachability attempt reported.
#[derive(Debug, Clone, Copy, PartialEq, Eq, Structural)]
pub enum ProbeOutcome {
    /// The node answered within the timeout.
    Success,
    /// The node did not answer within the timeout.
    NoResponse,
    /// The attempt could not be made at all; this carries no signal about
    /// the node.
    TransportError,
}

/// The status that a probe outcome moves a node to.
pub open spec fn next_status(current: NodeStatus, outcome: ProbeOutcome) -> NodeStatus {
    match outcome {
        ProbeOutcome::Success => NodeStatus::Up,
        ProbeOutcome::NoResponse => match current {
            NodeStatus::Unknown | NodeStatus::Up => NodeStatus::Pending,
            NodeStatus::Pending | NodeStatus::Down => NodeStatus::Down,
        },
        ProbeOutcome::TransportError => current,
    }
}

/// The status reached from `start` by applying the outcomes in order.
pub open spec fn status_after(start: NodeStatus, outcomes: Seq<ProbeOutcome>) -> NodeStatus
    decreases outcomes.len(),
{
    if outcomes.len() == 0 {
        start
    } else {
        next_status(status_after(start, outcomes.drop_last()), outcomes.last())
    }
}

/// The status reached after a run of outcomes depends only on the status
/// reached after any prefix of it and on the rest of the run: the current
/// status is all the state there is.
pub proof fn lemma_status_after_split(start: NodeStatus, a: Seq<ProbeOutcome>, b: Seq<ProbeOutcome>)
    ensures
        status_after(start, a + b) == status_after(status_after(start, a), b),
    decreases b.len(),
{
    if b.len() == 0 {
        assert(a + b =~= a);
    } else {
        assert((a + b).drop_last() =~= a + b.drop_last());
        assert((a + b).last() == b.last());
        lemma_status_after_split(start, a, b.drop_last());
    }
}

/// A single missed probe never takes a node that is up (or not yet probed)
/// straight to down: it becomes pending.
pub proof fn lemma_one_failure_is_pending(s: NodeStatus)
    requires
        s == NodeStatus::Up || s == NodeStatus::Unknown,
    ensures
        next_status(s, ProbeOutcome::NoResponse) == NodeStatus::Pending,
{
}

/// Two missed probes in a row take a node that is up to down, through
/// pending.
pub proof fn lemma_two_failures_are_down()
    ensures
        status_after(NodeStatus::Up, seq![ProbeOutcome::NoResponse]) == NodeStatus::Pending,
        status_after(NodeStatus::Up, seq![ProbeOutcome::NoResponse, ProbeOutcome::NoResponse])
            == NodeStatus::Down,
{
    let one = seq![ProbeOutcome::NoResponse];
    let two = seq![ProbeOutcome::NoResponse, ProbeOutcome::NoResponse];
    assert(one.drop_last() =~= Seq::<ProbeOutcome>::empty());
    assert(status_after(NodeStatus::Up, one.drop_last()) == NodeStatus::Up);
    assert(status_after(NodeStatus::Up, one) == NodeStatus::Pending);
    assert(two.drop_last() =~= one);
}

/// A successful probe brings a node up, whatever its status was.
pub proof fn lemma_success_is_up(s: NodeStatus)
    ensures
        next_status(s, ProbeOutcome::Success) == NodeStatus::Up,
{
}

/// Computes the status that `outcome` moves a node in status `current` to.
pub fn transition(current: NodeStatus, outcome: ProbeOutcome) -> (r: NodeStatus)
    ensures
        r == next_status(current, outcome),
{
    match outcome {
        ProbeOutcome::Success => NodeStatus::Up,
        ProbeOutcome::NoResponse => match current {
            NodeStatus::Unknown | NodeStatus::Up => NodeStatus::Pending,
            NodeStatus::Pending | NodeStatus::Down => NodeStatus::Down,
        },
        ProbeOutcome::TransportError => current,
    }
}

/// The abstract content of a node: its identity and its current status.
pub struct NodeView {
    pub name: Seq<char>,
    pub addr: Seq<char>,
    pub status: NodeStatus,
}

/// A monitored node: identity fixed at construction, status driven by probes.
#[derive(Debug, Clone)]
pub struct Node {
    name: String,
    addr: String,
    status: NodeStatus,
}

impl View for Node {
    type V = NodeView;

    closed spec fn view(&self) -> NodeView {
        NodeView { name: self.name@, addr: self.addr@, status: self.status }
    }
}

impl From<ConfigNode> for Node {
    fn from(value: ConfigNode) -> (r: Node) {
        Node { name: value.name, addr: value.addr, status: NodeStatus::Unknown }
    }
}

impl vstd::std_specs::convert::FromSpecImpl<ConfigNode> for Node {
    open spec fn obeys_from_spec() -> bool {
        true
    }

    closed spec fn from_spec(v: ConfigNode) -> Node {
        Node { name: v.name, addr: v.addr, status: NodeStatus::Unknown }
    }
}

/// A node built from its configuration has the configured identity and
/// has not been probed yet.
pub proof fn lemma_from_config(v: ConfigNode)
    ensures
        <Node as vstd::std_specs::convert::FromSpec<ConfigNode>>::from_spec(v)@ == (NodeView {
            name: v.name@,
            addr: v.addr@,
            status: NodeStatus::Unknown,
        }),
{
}

impl Node {
    /// The name displayed in notifications about the node.
    pub fn name(&self) -> (r: &str)
        ensures
            r@ == self@.name,
    {
        self.name.as_str()
    }

    /// The current status of the node.
    pub fn status(&self) -> (r: NodeStatus)
        ensures
            r == self@.status,
    {
        self.status
    }

    /// The address that is probed.
    pub fn addr(&self) -> (r: &str)
        ensures
            r@ == self@.addr,
    {
        self.addr.as_str()
    }

    /// An immutable copy of the node as it is now.
    pub fn snapshot(&self) -> (r: Node)
        ensures
            r@ == self@,
    {
        Node { name: self.name.clone(), addr: self.addr.clone(), status: self.status }
    }

    /// Applies the outcome of one probe to the node's status. A transport
    /// error leaves the status as it is and is reported as `Err`; otherwise
    /// the new status is returned.
    pub fn check(&mut self, outcome: ProbeOutcome) -> (r: Result<NodeStatus, ()>)
        ensures
            final(self)@.name == old(self)@.name,
            final(self)@.addr == old(self)@.addr,
            final(self)@.status == next_status(old(self)@.status, outcome),
            outcome == ProbeOutcome::TransportError <==> r is Err,
            r matches Ok(s) ==> s == final(self)@.status,
    {
        match outcome {
            ProbeOutcome::TransportError => Err(()),
            _ => {
                self.status = transition(self.status, outcome);
                Ok(self.status)
            },
        }
    }
}

} // verus!

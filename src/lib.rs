//! Reachability monitoring for a fixed set of network nodes: the per-node
//! status machine, the decision of which status changes are worth an alert,
//! and the scheduling of sweeps.

pub mod alert;
pub mod config;
pub mod node;
pub mod schedule;

use vstd::prelude::*;

use crate::alert::{alert_kind, alert_for, AlertKind, NotifyMessages};
use crate::config::{Config, ConfigNode, NotificationTarget};
use crate::node::{next_status, Node, NodeStatus, NodeView, ProbeOutcome};

verus! {

/// The event that one probe outcome produces for a node in status `prev`:
/// none for a transport error, else the alert that the status change deserves.
pub open spec fn probe_event(prev: NodeStatus, outcome: ProbeOutcome) -> Option<AlertKind> {
    if outcome == ProbeOutcome::TransportError {
        None
    } else {
        alert_kind(prev, next_status(prev, outcome))
    }
}

/// A transport error neither changes a node's status nor produces an event.
pub proof fn lemma_transport_error_is_silent(s: NodeStatus)
    ensures
        next_status(s, ProbeOutcome::TransportError) == s,
        probe_event(s, ProbeOutcome::TransportError) is None,
{
}

/// The abstract state of a client: its nodes in probing order, where it
/// delivers notifications, and its poll interval in seconds.
pub struct ClientView {
    pub nodes: Seq<NodeView>,
    pub targets: Seq<NotificationTarget>,
    pub ping_interval: u64,
}

/// The client running the checks: it owns the nodes and their status.
pub struct Client {
    config: Config,
    nodes: Vec<Node>,
}

impl View for Client {
    type V = ClientView;

    closed spec fn view(&self) -> ClientView {
        ClientView {
            nodes: self.nodes@.map_values(|n: Node| n@),
            targets: self.config.notify_targets@,
            ping_interval: self.config.ping_interval,
        }
    }
}

impl Client {
    /// A client for the configured nodes, none of them probed yet.
    pub fn new(config: Config) -> (r: Client)
        ensures
            r@.nodes.len() == config.nodes@.len(),
            forall|i: int|
                0 <= i < config.nodes@.len() ==> #[trigger] r@.nodes[i] == (NodeView {
                    name: config.nodes@[i].name@,
                    addr: config.nodes@[i].addr@,
                    status: NodeStatus::Unknown,
                }),
            r@.targets == config.notify_targets@,
            r@.ping_interval == config.ping_interval,
    {
        let mut nodes: Vec<Node> = Vec::new();
        let mut k: usize = 0;
        while k < config.nodes.len()
            invariant
                k <= config.nodes@.len(),
                nodes@.len() == k,
                forall|i: int|
                    0 <= i < k ==> #[trigger] nodes@[i]@ == (NodeView {
                        name: config.nodes@[i].name@,
                        addr: config.nodes@[i].addr@,
                        status: NodeStatus::Unknown,
                    }),
            decreases config.nodes@.len() - k,
        {
            let c = &config.nodes[k];
            let v = ConfigNode { name: c.name.clone(), addr: c.addr.clone() };
            proof {
                crate::node::lemma_from_config(v);
            }
            nodes.push(Node::from(v));
            k = k + 1;
        }
        Client { config, nodes }
    }

    /// The nodes, in probing order.
    pub fn nodes(&self) -> (r: &[Node])
        ensures
            r@.len() == self@.nodes.len(),
            forall|i: int| 0 <= i < r@.len() ==> #[trigger] r@[i]@ == self@.nodes[i],
    {
        self.nodes.as_slice()
    }

    /// Where notifications are delivered.
    pub fn targets(&self) -> (r: &[NotificationTarget])
        ensures
            r@ == self@.targets,
    {
        self.config.notify_targets.as_slice()
    }

    /// The poll interval, in seconds.
    pub fn ping_interval(&self) -> (r: u64)
        ensures
            r == self@.ping_interval,
    {
        self.config.ping_interval
    }

    /// Applies the outcome of one probe of node `i`: the node moves to its
    /// next status (a transport error leaves it as it is), no other node
    /// changes, and the event that the change deserves comes back with a
    /// copy of the node as it is now.
    pub fn on_probe(&mut self, i: usize, outcome: ProbeOutcome) -> (r: Option<NotifyMessages>)
        requires
            i < old(self)@.nodes.len(),
        ensures
            final(self)@.nodes == old(self)@.nodes.update(
                i as int,
                NodeView {
                    status: next_status(old(self)@.nodes[i as int].status, outcome),
                    ..old(self)@.nodes[i as int]
                },
            ),
            final(self)@.targets == old(self)@.targets,
            final(self)@.ping_interval == old(self)@.ping_interval,
            r is Some <==> probe_event(old(self)@.nodes[i as int].status, outcome) is Some,
            r matches Some(m) ==> Some(m.spec_kind()) == probe_event(
                old(self)@.nodes[i as int].status,
                outcome,
            ) && m.spec_node()@ == final(self)@.nodes[i as int],
    {
        let mut node = self.nodes[i].snapshot();
        let prev = node.status();
        let checked = node.check(outcome);
        let snapshot = node.snapshot();
        self.nodes.set(i, node);
        proof {
            assert(self@.nodes =~= old(self)@.nodes.update(
                i as int,
                NodeView {
                    status: next_status(old(self)@.nodes[i as int].status, outcome),
                    ..old(self)@.nodes[i as int]
                },
            ));
        }
        match checked {
            Ok(new) => match alert_for(prev, new) {
                Some(kind) => Some(NotifyMessages::new(kind, snapshot)),
                None => None,
            },
            Err(()) => None,
        }
    }

    /// Draws the pause after a sweep, in milliseconds: the poll interval
    /// plus a small random jitter.
    pub fn next_sweep_delay_ms(&self) -> (r: u64)
        ensures
            exists|j: int|
                0 <= j < schedule::SWEEP_JITTER_MS_END && r == #[trigger] schedule::jittered(
                    schedule::base_delay_ms(self@.ping_interval),
                    j,
                ),
    {
        let r = schedule::next_sweep_delay_ms(self.config.ping_interval);
        proof {
            let j = choose|j: int|
                0 <= j < schedule::SWEEP_JITTER_MS_END && r == #[trigger] schedule::jittered(
                    schedule::base_delay_ms(self.config.ping_interval),
                    j,
                );
            assert(self@.ping_interval == self.config.ping_interval);
            assert(0 <= j < schedule::SWEEP_JITTER_MS_END && r == schedule::jittered(
                schedule::base_delay_ms(self@.ping_interval),
                j,
            ));
        }
        r
    }
}

} // verus!

use vstd::prelude::*;

use crate::node::{Node, NodeStatus, NodeView};

verus! {

/// The kinds of status change that are announced.
#[derive(Debug, Clone, Copy, PartialEq, Eq, Structural)]
pub enum AlertKind {
    /// The node failed a probe after being up or unknown.
    Pending,
    /// The node entered the down state.
    Down,
    /// The node answered again after being pending or down.
    BackUp,
}

/// Which alert, if any, the move from `prev` to `new` deserves. Staying up or
/// staying down is never announced again; every move to pending is.
pub open spec fn alert_kind(prev: NodeStatus, new: NodeStatus) -> Option<AlertKind> {
    match new {
        NodeStatus::Pending => Some(AlertKind::Pending),
        NodeStatus::Down => if prev != NodeStatus::Down {
            Some(AlertKind::Down)
        } else {
            None
        },
        NodeStatus::Up => if prev == NodeStatus::Down || prev == NodeStatus::Pending {
            Some(AlertKind::BackUp)
        } else {
            None
        },
        NodeStatus::Unknown => None,
    }
}

/// Staying in the same status is never announced again, except a repeated
/// move to pending, which is announced every time.
pub proof fn lemma_no_repeated_alert(s: NodeStatus)
    requires
        s != NodeStatus::Pending,
    ensures
        alert_kind(s, s) is None,
{
}

/// Decides which alert, if any, the move from `prev` to `new` deserves.
pub fn alert_for(prev: NodeStatus, new: NodeStatus) -> (r: Option<AlertKind>)
    ensures
        r == alert_kind(prev, new),
{
    match new {
        NodeStatus::Pending => Some(AlertKind::Pending),
        NodeStatus::Down => if prev != NodeStatus::Down {
            Some(AlertKind::Down)
        } else {
            None
        },
        NodeStatus::Up => if prev == NodeStatus::Down || prev == NodeStatus::Pending {
            Some(AlertKind::BackUp)
        } else {
            None
        },
        NodeStatus::Unknown => None,
    }
}

/// A notification event: the kind of change and a copy of the node taken
/// when it happened.
#[derive(Debug, Clone)]
pub enum NotifyMessages {
    Pending { node: Node },
    Down { node: Node },
    BackUp { node: Node },
}

impl NotifyMessages {
    pub open spec fn spec_kind(&self) -> AlertKind {
        match self {
            NotifyMessages::Pending { .. } => AlertKind::Pending,
            NotifyMessages::Down { .. } => AlertKind::Down,
            NotifyMessages::BackUp { .. } => AlertKind::BackUp,
        }
    }

    pub open spec fn spec_node(&self) -> Node {
        match self {
            NotifyMessages::Pending { node } => *node,
            NotifyMessages::Down { node } => *node,
            NotifyMessages::BackUp { node } => *node,
        }
    }

    /// The event of the given kind about `node`.
    pub fn new(kind: AlertKind, node: Node) -> (r: NotifyMessages)
        ensures
            r.spec_kind() == kind,
            r.spec_node() == node,
    {
        match kind {
            AlertKind::Pending => NotifyMessages::Pending { node },
            AlertKind::Down => NotifyMessages::Down { node },
            AlertKind::BackUp => NotifyMessages::BackUp { node },
        }
    }

    /// The kind of change the event announces.
    pub fn kind(&self) -> (r: AlertKind)
        ensures
            r == self.spec_kind(),
    {
        match self {
            NotifyMessages::Pending { .. } => AlertKind::Pending,
            NotifyMessages::Down { .. } => AlertKind::Down,
            NotifyMessages::BackUp { .. } => AlertKind::BackUp,
        }
    }

    /// The copy of the node that the event carries.
    pub fn node(&self) -> (r: &Node)
        ensures
            *r == self.spec_node(),
    {
        match self {
            NotifyMessages::Pending { node } => node,
            NotifyMessages::Down { node } => node,
            NotifyMessages::BackUp { node } => node,
        }
    }
}

/// The display label of a status.
pub open spec fn status_label(s: NodeStatus) -> Seq<char> {
    match s {
        NodeStatus::Unknown => "Unknown"@,
        NodeStatus::Up => "Up"@,
        NodeStatus::Pending => "Pending"@,
        NodeStatus::Down => "Down"@,
    }
}

/// The title of an alert of the given kind.
pub open spec fn alert_title(k: AlertKind) -> Seq<char> {
    match k {
        AlertKind::Pending => "Node Pending"@,
        AlertKind::Down => "Node Down"@,
        AlertKind::BackUp => "Node Back Up"@,
    }
}

/// The sentence that follows the node's name in an alert's description.
pub open spec fn alert_phrase(k: AlertKind) -> Seq<char> {
    match k {
        AlertKind::Pending => " failed its last reachability check"@,
        AlertKind::Down => " is down"@,
        AlertKind::BackUp => " is back up"@,
    }
}

/// Human-readable content of one alert, independent of how it is delivered.
pub struct Alert {
    pub title: String,
    pub description: String,
    pub name: String,
    pub address: String,
    pub status: String,
}

/// Computes the display label of a status.
pub fn status_text(s: NodeStatus) -> (r: &'static str)
    ensures
        r@ == status_label(s),
{
    match s {
        NodeStatus::Unknown => "Unknown",
        NodeStatus::Up => "Up",
        NodeStatus::Pending => "Pending",
        NodeStatus::Down => "Down",
    }
}

fn title_text(k: AlertKind) -> (r: &'static str)
    ensures
        r@ == alert_title(k),
{
    match k {
        AlertKind::Pending => "Node Pending",
        AlertKind::Down => "Node Down",
        AlertKind::BackUp => "Node Back Up",
    }
}

fn phrase_text(k: AlertKind) -> (r: &'static str)
    ensures
        r@ == alert_phrase(k),
{
    match k {
        AlertKind::Pending => " failed its last reachability check",
        AlertKind::Down => " is down",
        AlertKind::BackUp => " is back up",
    }
}

/// Renders an event into the content of an alert: a title per kind, a
/// description that embeds the node's name, and the node's name, address
/// and status as they were when the event was made.
pub fn render(msg: &NotifyMessages) -> (r: Alert)
    ensures
        r.title@ == alert_title(msg.spec_kind()),
        r.description@ == "Node "@ + msg.spec_node()@.name + alert_phrase(msg.spec_kind()),
        r.name@ == msg.spec_node()@.name,
        r.address@ == msg.spec_node()@.addr,
        r.status@ == status_label(msg.spec_node()@.status),
{
    let kind = msg.kind();
    let node = msg.node();
    let description = String::from_str("Node ");
    let description = description.concat(node.name());
    let description = description.concat(phrase_text(kind));
    Alert {
        title: String::from_str(title_text(kind)),
        description,
        name: String::from_str(node.name()),
        address: String::from_str(node.addr()),
        status: String::from_str(status_text(node.status())),
    }
}

/// After an attempt to deliver an event to target `current` of
/// `n_targets`, the next target to attempt for the same event, if any.
/// Whether that attempt was delivered (`_delivered`) has no bearing on it: a
/// failed delivery never keeps the remaining targets from their turn.
pub fn next_target(current: usize, n_targets: usize, _delivered: bool) -> (r: Option<usize>)
    requires
        current < n_targets,
    ensures
        r == (if current + 1 < n_targets {
            Some((current + 1) as usize)
        } else {
            None::<usize>
        }),
{
    let next = current + 1;
    if next < n_targets {
        Some(next)
    } else {
        None
    }
}

} // verus!

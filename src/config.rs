use vstd::prelude::*;

verus! {

/// Poll interval, in seconds, used when the configuration names none.
pub const DEFAULT_PING_INTERVAL: u64 = 30;

/// A node to monitor, as it stands in the configuration.
#[derive(Debug, Clone)]
pub struct ConfigNode {
    /// The name to display in the notifications regarding the node.
    pub name: String,
    /// The textual network address that is probed to determine the
    /// availability of the node.
    pub addr: String,
}

/// Where notifications are delivered.
#[derive(Debug, Clone)]
pub enum NotificationTarget {
    /// Sends the notifications as a chat message through a webhook.
    DiscordWebhook {
        /// The URL of the webhook.
        url: String,
    },
}

/// The validated configuration of a monitoring client.
#[derive(Debug, Clone)]
pub struct Config {
    /// The nodes to monitor, in probing order.
    pub nodes: Vec<ConfigNode>,
    /// How notifications of changes are delivered.
    pub notify_targets: Vec<NotificationTarget>,
    /// The interval, in seconds, between two sweeps over the nodes.
    pub ping_interval: u64,
}

/// The poll interval, in seconds, used when the configuration gives none.
pub fn default_ping_interval() -> (r: u64)
    ensures
        r == DEFAULT_PING_INTERVAL,
{
    DEFAULT_PING_INTERVAL
}

} // verus!

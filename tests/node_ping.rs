use node_ping::alert::{alert_for, next_target, render, status_text, AlertKind, NotifyMessages};
use node_ping::config::{default_ping_interval, Config, ConfigNode, NotificationTarget};
use node_ping::node::{transition, Node, NodeStatus, ProbeOutcome};
use node_ping::schedule::{next_sweep_delay_ms, node_gap_ms, sweep_delay_ms};
use node_ping::Client;

fn config_node(name: &str, addr: &str) -> ConfigNode {
    ConfigNode { name: name.to_string(), addr: addr.to_string() }
}

fn two_node_client() -> Client {
    Client::new(Config {
        nodes: vec![config_node("A", "10.0.0.1"), config_node("B", "10.0.0.2")],
        notify_targets: vec![NotificationTarget::DiscordWebhook {
            url: "https://example.invalid/hook".to_string(),
        }],
        ping_interval: 30,
    })
}

fn alerts_for_run(run: &[NodeStatus]) -> Vec<AlertKind> {
    let mut out = Vec::new();
    for w in run.windows(2) {
        if let Some(k) = alert_for(w[0], w[1]) {
            out.push(k);
        }
    }
    out
}

#[test]
fn default_interval_is_thirty_seconds() {
    assert_eq!(default_ping_interval(), 30);
}

#[test]
fn one_failure_from_up_is_pending() {
    assert_eq!(transition(NodeStatus::Up, ProbeOutcome::NoResponse), NodeStatus::Pending);
    assert_eq!(transition(NodeStatus::Unknown, ProbeOutcome::NoResponse), NodeStatus::Pending);
}

#[test]
fn two_failures_from_up_are_down() {
    let once = transition(NodeStatus::Up, ProbeOutcome::NoResponse);
    assert_eq!(once, NodeStatus::Pending);
    assert_eq!(transition(once, ProbeOutcome::NoResponse), NodeStatus::Down);
    assert_eq!(transition(NodeStatus::Down, ProbeOutcome::NoResponse), NodeStatus::Down);
}

#[test]
fn success_is_always_up() {
    for s in [NodeStatus::Unknown, NodeStatus::Up, NodeStatus::Pending, NodeStatus::Down] {
        assert_eq!(transition(s, ProbeOutcome::Success), NodeStatus::Up);
    }
}

#[test]
fn same_outcomes_give_same_status() {
    let run = [
        ProbeOutcome::NoResponse,
        ProbeOutcome::TransportError,
        ProbeOutcome::NoResponse,
        ProbeOutcome::Success,
        ProbeOutcome::NoResponse,
    ];
    let mut a = NodeStatus::Unknown;
    let mut b = NodeStatus::Unknown;
    for o in run {
        a = transition(a, o);
    }
    for o in run {
        b = transition(b, o);
    }
    assert_eq!(a, b);
    assert_eq!(a, NodeStatus::Pending);
}

#[test]
fn status_run_gives_pending_down_backup() {
    let run = [
        NodeStatus::Unknown,
        NodeStatus::Up,
        NodeStatus::Pending,
        NodeStatus::Down,
        NodeStatus::Down,
        NodeStatus::Down,
        NodeStatus::Up,
    ];
    assert_eq!(alerts_for_run(&run), vec![AlertKind::Pending, AlertKind::Down, AlertKind::BackUp]);
}

#[test]
fn up_down_run_gives_down_then_backup() {
    let run = [NodeStatus::Up, NodeStatus::Down, NodeStatus::Down, NodeStatus::Down, NodeStatus::Up];
    assert_eq!(alerts_for_run(&run), vec![AlertKind::Down, AlertKind::BackUp]);
}

#[test]
fn alert_decision_is_repeatable() {
    let all = [NodeStatus::Unknown, NodeStatus::Up, NodeStatus::Pending, NodeStatus::Down];
    for p in all {
        for n in all {
            assert_eq!(alert_for(p, n), alert_for(p, n));
        }
    }
    assert_eq!(alert_for(NodeStatus::Up, NodeStatus::Up), None);
    assert_eq!(alert_for(NodeStatus::Down, NodeStatus::Down), None);
    assert_eq!(alert_for(NodeStatus::Pending, NodeStatus::Pending), Some(AlertKind::Pending));
    assert_eq!(alert_for(NodeStatus::Unknown, NodeStatus::Up), None);
    assert_eq!(alert_for(NodeStatus::Up, NodeStatus::Unknown), None);
}

#[test]
fn node_transport_error_keeps_status() {
    let mut node = Node::from(config_node("A", "10.0.0.1"));
    assert_eq!(node.check(ProbeOutcome::NoResponse), Ok(NodeStatus::Pending));
    assert_eq!(node.check(ProbeOutcome::TransportError), Err(()));
    assert_eq!(node.status(), NodeStatus::Pending);
    assert_eq!(node.name(), "A");
    assert_eq!(node.addr(), "10.0.0.1");
}

#[test]
fn client_transport_error_is_silent() {
    let mut client = two_node_client();
    assert!(client.on_probe(1, ProbeOutcome::NoResponse).is_some());
    assert_eq!(client.nodes()[1].status(), NodeStatus::Pending);
    assert!(client.on_probe(1, ProbeOutcome::TransportError).is_none());
    assert_eq!(client.nodes()[1].status(), NodeStatus::Pending);
    assert_eq!(client.nodes()[0].status(), NodeStatus::Unknown);
}

#[test]
fn new_client_starts_unknown() {
    let client = two_node_client();
    assert_eq!(client.nodes().len(), 2);
    assert_eq!(client.nodes()[0].name(), "A");
    assert_eq!(client.nodes()[1].addr(), "10.0.0.2");
    assert_eq!(client.nodes()[1].status(), NodeStatus::Unknown);
    assert_eq!(client.targets().len(), 1);
    assert_eq!(client.ping_interval(), 30);
}

#[test]
fn three_sweeps_scenario() {
    let mut client = two_node_client();
    let a = [ProbeOutcome::Success, ProbeOutcome::Success, ProbeOutcome::Success];
    let b = [ProbeOutcome::NoResponse, ProbeOutcome::NoResponse, ProbeOutcome::NoResponse];
    let mut sweeps: Vec<Vec<Option<AlertKind>>> = Vec::new();
    for s in 0..3 {
        let ea = client.on_probe(0, a[s]).map(|m| m.kind());
        let eb = client.on_probe(1, b[s]).map(|m| m.kind());
        sweeps.push(vec![ea, eb]);
    }
    assert_eq!(sweeps[0], vec![None, Some(AlertKind::Pending)]);
    assert_eq!(sweeps[1], vec![None, Some(AlertKind::Down)]);
    assert_eq!(sweeps[2], vec![None, None]);
}

#[test]
fn event_carries_snapshot() {
    let mut client = two_node_client();
    let m = client.on_probe(1, ProbeOutcome::NoResponse).unwrap();
    client.on_probe(1, ProbeOutcome::Success);
    assert_eq!(m.node().status(), NodeStatus::Pending);
    assert_eq!(m.node().name(), "B");
    assert_eq!(client.nodes()[1].status(), NodeStatus::Up);
}

#[test]
fn back_up_after_down() {
    let mut client = two_node_client();
    client.on_probe(0, ProbeOutcome::NoResponse);
    client.on_probe(0, ProbeOutcome::NoResponse);
    let m = client.on_probe(0, ProbeOutcome::Success).unwrap();
    assert_eq!(m.kind(), AlertKind::BackUp);
    assert!(client.on_probe(0, ProbeOutcome::Success).is_none());
}

#[test]
fn failed_delivery_does_not_skip_next_target() {
    assert_eq!(next_target(0, 2, false), Some(1));
    assert_eq!(next_target(0, 2, true), Some(1));
    assert_eq!(next_target(1, 2, false), None);
    assert_eq!(next_target(1, 3, false), Some(2));
}

#[test]
fn render_down_event() {
    let mut node = Node::from(config_node("web", "192.168.1.5"));
    node.check(ProbeOutcome::NoResponse).unwrap();
    node.check(ProbeOutcome::NoResponse).unwrap();
    let alert = render(&NotifyMessages::new(AlertKind::Down, node));
    assert_eq!(alert.title, "Node Down");
    assert_eq!(alert.description, "Node web is down");
    assert_eq!(alert.name, "web");
    assert_eq!(alert.address, "192.168.1.5");
    assert_eq!(alert.status, "Down");
}

#[test]
fn render_titles_per_kind() {
    let node = Node::from(config_node("db", "::1"));
    let p = render(&NotifyMessages::Pending { node: node.clone() });
    assert_eq!(p.title, "Node Pending");
    assert_eq!(p.description, "Node db failed its last reachability check");
    assert_eq!(p.status, "Unknown");
    let b = render(&NotifyMessages::BackUp { node });
    assert_eq!(b.title, "Node Back Up");
    assert_eq!(b.description, "Node db is back up");
    assert_eq!(status_text(NodeStatus::Up), "Up");
}

#[test]
fn sweep_delay_adds_jitter() {
    assert_eq!(sweep_delay_ms(30, 100), 30_100);
    assert_eq!(sweep_delay_ms(30, 0), 30_000);
    assert_eq!(sweep_delay_ms(1, -200), 800);
}

#[test]
fn sweep_delay_falls_back_to_base() {
    assert_eq!(sweep_delay_ms(30, -40_000), 30_000);
    assert_eq!(sweep_delay_ms(0, -1), 0);
    assert_eq!(sweep_delay_ms(u64::MAX, 5), u64::MAX);
    assert_eq!(sweep_delay_ms(u64::MAX / 1000 + 1, 0), u64::MAX);
}

#[test]
fn drawn_delays_stay_in_bounds() {
    for _ in 0..50 {
        let d = next_sweep_delay_ms(30);
        assert!((30_000..30_250).contains(&d));
        let g = node_gap_ms();
        assert!((2..6).contains(&g));
    }
    let client = two_node_client();
    let d = client.next_sweep_delay_ms();
    assert!((30_000..30_250).contains(&d));
}

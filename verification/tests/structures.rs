use dsbox::capabilities::Capabilities;
use dsbox::message::{Message, Payload};
use dsbox::network::{DeliveryNotice, Network, NetworkOrder};
use dsbox::node::{Node, NodeId};
use dsbox::node_manager::NodeManager;
use dsbox::timer_manager::{TimerFilter, TimerKind, TimerManager};
use dsbox::timestamp::Timestamp;

struct Quiet;


fn ts(logical: usize) -> Timestamp {
    Timestamp { logical, physical: 0 }
}

fn msg(src: &str, dest: &str) -> Message {
    Message::new(src, dest, Payload::Other(format!("{src}->{dest}")))
}

fn node(id: usize, name: &str) -> Node<Quiet> {
    Node::new(NodeId(id), name.to_string(), None, Capabilities::empty(), false, false, false, "quiet".to_string(), Quiet)
}

#[test]
fn network_orders_by_send_time() {
    let mut n = Network::new(NetworkOrder::Fifo);
    assert!(n.is_empty());
    n.insert(ts(5), Some(NodeId(1)), msg("a", "b"), DeliveryNotice::NotRequested);
    n.insert(ts(2), Some(NodeId(1)), msg("a", "c"), DeliveryNotice::NotRequested);
    n.insert(ts(9), None, msg("core", "b"), DeliveryNotice::WithReplyId(Some(4)));
    assert_eq!(n.len(), 3);
    let first = n.remove_next().unwrap();
    assert_eq!(first.sent_timestamp.logical, 2);
    assert_eq!(first.message.dest, "c");
    assert_eq!(n.remove_next_oldest().unwrap().sent_timestamp.logical, 5);
    let last = n.remove_next().unwrap();
    assert_eq!(last.sent_timestamp.logical, 9);
    assert_eq!(last.delivery_notice, DeliveryNotice::WithReplyId(Some(4)));
    assert!(n.remove_next().is_none());
}

#[test]
fn network_insert_then_remove_one_gives_the_message_back() {
    let mut n = Network::new(NetworkOrder::Fifo);
    n.insert(ts(1), Some(NodeId(1)), msg("a", "b"), DeliveryNotice::NotRequested);
    n.insert(ts(3), Some(NodeId(2)), msg("x", "y"), DeliveryNotice::NotRequested);
    let m = n.remove_one(3).unwrap();
    assert_eq!(m.message.src, "x");
    assert_eq!(m.source, Some(NodeId(2)));
    assert!(n.remove_one(3).is_none());
    assert!(n.remove_one(7).is_none());
    assert_eq!(n.len(), 1);
}

#[test]
fn network_remembers_senders() {
    let mut n = Network::new(NetworkOrder::Fifo);
    n.insert(ts(1), Some(NodeId(4)), msg("a", "b"), DeliveryNotice::NotRequested);
    assert!(n.has_remaining_messages(NodeId(4)));
    assert!(!n.has_remaining_messages(NodeId(5)));
}

#[test]
fn random_order_keeps_each_channel_in_order() {
    for _ in 0..20 {
        let mut n = Network::new(NetworkOrder::RandomFifoChannels);
        n.insert(ts(1), None, msg("a", "b"), DeliveryNotice::NotRequested);
        n.insert(ts(2), None, msg("c", "d"), DeliveryNotice::NotRequested);
        n.insert(ts(3), None, msg("a", "b"), DeliveryNotice::NotRequested);
        n.insert(ts(4), None, msg("c", "d"), DeliveryNotice::NotRequested);
        let heads = n.channel_heads();
        assert_eq!(heads, vec![0, 1]);
        let mut seen_ab = Vec::new();
        let mut seen_cd = Vec::new();
        while let Some(m) = n.remove_next() {
            if m.message.src == "a" {
                seen_ab.push(m.sent_timestamp.logical);
            } else {
                seen_cd.push(m.sent_timestamp.logical);
            }
        }
        assert_eq!(seen_ab, vec![1, 3]);
        assert_eq!(seen_cd, vec![2, 4]);
    }
}

#[test]
fn network_drops_messages_of_names() {
    let mut n = Network::new(NetworkOrder::Fifo);
    n.insert(ts(1), None, msg("a", "b"), DeliveryNotice::NotRequested);
    n.insert(ts(2), None, msg("c", "a"), DeliveryNotice::NotRequested);
    n.insert(ts(3), None, msg("c", "d"), DeliveryNotice::NotRequested);
    n.retain_not_touching(&vec!["a".to_string()]);
    assert_eq!(n.len(), 1);
    assert_eq!(n.remove_next().unwrap().sent_timestamp.logical, 3);
}

#[test]
fn timers_come_out_by_deadline() {
    let mut t = TimerManager::new();
    t.add(50, TimerKind::ExpectRegistry { node_id: NodeId(1) });
    t.add(10, TimerKind::TimerService { source: "a".to_string(), msg_id: Some(1), name: "x".to_string() });
    t.add(50, TimerKind::ShutdownTimeout { node_ids: vec![NodeId(2)] });
    assert_eq!(t.len(), 3);
    assert_eq!(t.next_deadline(), Some(10));
    assert!(t.pop_expired(5).is_none());
    let first = t.pop_expired(10).unwrap();
    assert!(matches!(first.kind, TimerKind::TimerService { .. }));
    let second = t.pop_next().unwrap();
    assert!(matches!(second.kind, TimerKind::ExpectRegistry { .. }));
    let third = t.pop_next().unwrap();
    assert!(matches!(third.kind, TimerKind::ShutdownTimeout { .. }));
    assert!(t.pop_next().is_none());
    assert_eq!(t.next_deadline(), None);
}

#[test]
fn timer_filters() {
    let mut t = TimerManager::new();
    t.add(1, TimerKind::ExpectRegistry { node_id: NodeId(1) });
    t.add(2, TimerKind::ExpectRegistry { node_id: NodeId(2) });
    t.add(3, TimerKind::TimerService { source: "a".to_string(), msg_id: None, name: "n1".to_string() });
    t.add(4, TimerKind::TimerService { source: "a".to_string(), msg_id: None, name: "n2".to_string() });
    t.retain(&TimerFilter::AllButRegistryOf(NodeId(1)));
    assert_eq!(t.len(), 3);
    t.retain(&TimerFilter::AllButServicesNamed(vec!["n2".to_string()]));
    assert_eq!(t.len(), 2);
    assert_eq!(t.pop_next().unwrap().deadline, 2);
    assert_eq!(t.pop_next().unwrap().deadline, 3);
}

#[test]
fn node_manager_names_and_aliases() {
    let mut m: NodeManager<Quiet> = NodeManager::new();
    assert!(m.add(node(1, "a")).is_ok());
    assert!(m.add(node(2, "b")).is_ok());
    assert!(m.add(node(3, "a")).is_err());
    assert_eq!(m.len(), 2);
    assert_eq!(m.lookup("a"), Some(NodeId(1)));
    assert_eq!(m.lookup("zz"), None);
    assert_eq!(m.add_alias(NodeId(1), "a2".to_string()).unwrap().unwrap().name, "a");
    assert!(m.add_alias(NodeId(1), "b".to_string()).is_err());
    assert!(m.add_alias(NodeId(9), "q".to_string()).unwrap().is_none());
    assert!(m.has_alias(NodeId(1), "a2"));
    assert!(!m.has_alias(NodeId(2), "a2"));
    let mut aliases = m.aliases_of(NodeId(1));
    aliases.sort();
    assert_eq!(aliases, vec!["a".to_string(), "a2".to_string()]);
    let removed = m.remove_aliases_of(NodeId(1));
    assert_eq!(removed, vec!["a2".to_string()]);
    assert_eq!(m.lookup("a"), Some(NodeId(1)));
    assert_eq!(m.lookup("a2"), None);
    m.remove(NodeId(1));
    assert_eq!(m.lookup("a"), None);
    assert!(m.get(NodeId(1)).is_none());
    assert_eq!(m.node_ids(), vec![NodeId(2)]);
}

#[test]
fn node_manager_flags() {
    let mut m: NodeManager<Quiet> = NodeManager::new();
    m.add(node(1, "a")).unwrap();
    m.set_requires_registration(NodeId(1), true);
    assert!(m.get(NodeId(1)).unwrap().requires_registration);
    m.set_reset_requested(NodeId(1), true);
    assert!(m.get(NodeId(1)).unwrap().reset_requested);
    assert_eq!(m.get(NodeId(1)).unwrap().commandline(), "quiet");
}

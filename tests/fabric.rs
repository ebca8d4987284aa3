use gnunet_social::cadet::{CadetService, MAILBOX_CAPACITY, CHAT_PORT};
use gnunet_social::crypto::PeerIdentity;
use gnunet_social::events::{EventBus, Received, EVENT_BACKLOG};
use gnunet_social::messages::EventMessage;
use gnunet_social::social::{Friendship, FriendshipStatus};
use gnunet_social::store::SocialStore;
use gnunet_social::visibility::friendship_key;

fn peer(s: &str) -> PeerIdentity {
    PeerIdentity::new(s.to_string())
}

#[test]
fn friendship_key_sorts_and_joins() {
    assert_eq!(friendship_key(&peer("b"), &peer("a")), "a:b");
    assert_eq!(friendship_key(&peer("a"), &peer("b")), "a:b");
    assert_eq!(friendship_key(&peer("ab"), &peer("a")), "a:ab");
    assert_eq!(friendship_key(&peer("x"), &peer("x")), "x:x");
    assert_eq!(friendship_key(&peer(""), &peer("z")), ":z");
}

#[test]
fn store_accept_links_both_sides_and_is_idempotent() {
    let mut store = SocialStore::new();
    store.request_friendship(Friendship::new(peer("a"), peer("b")));
    assert!(store.get_friends(&peer("a")).is_empty());
    assert!(store.accept_friendship(&peer("b"), &peer("a")));
    let fa: Vec<String> = store.get_friends(&peer("a")).iter().map(|p| p.to_string()).collect();
    let fb: Vec<String> = store.get_friends(&peer("b")).iter().map(|p| p.to_string()).collect();
    assert_eq!(fa, vec!["b".to_string()]);
    assert_eq!(fb, vec!["a".to_string()]);
    assert!(store.accept_friendship(&peer("a"), &peer("b")));
    let f = store.get_friendship(&peer("b"), &peer("a")).expect("friendship");
    assert_eq!(f.status, FriendshipStatus::Accepted);
    assert!(f.updated_at >= f.created_at);
    assert!(!store.accept_friendship(&peer("a"), &peer("c")));
}

#[test]
fn second_request_for_pair_replaces_first() {
    let mut store = SocialStore::new();
    store.request_friendship(Friendship::new(peer("a"), peer("b")));
    store.accept_friendship(&peer("a"), &peer("b"));
    store.request_friendship(Friendship::new(peer("b"), peer("a")));
    let f = store.get_friendship(&peer("a"), &peer("b")).expect("friendship");
    assert_eq!(f.status, FriendshipStatus::Pending);
    assert_eq!(f.requester_id.as_str(), "b");
    assert!(store.get_friends(&peer("a")).is_empty());
}

#[test]
fn toggle_like_twice_on_store() {
    let mut store = SocialStore::new();
    let post = gnunet_social::social::Post::new(peer("a"), "x".to_string());
    let id = post.id;
    store.add_post(post);
    let liked = store.toggle_like(id, &"b".to_string()).expect("post");
    assert_eq!(liked.likes, vec!["b".to_string()]);
    let unliked = store.toggle_like(id, &"b".to_string()).expect("post");
    assert!(unliked.likes.is_empty());
    assert!(store.toggle_like(id.wrapping_add(1), &"b".to_string()).is_none());
}

#[test]
fn add_post_replaces_same_id_and_keeps_order() {
    let mut store = SocialStore::new();
    let p1 = gnunet_social::social::Post::new(peer("a"), "one".to_string());
    let p2 = gnunet_social::social::Post::new(peer("a"), "two".to_string());
    let mut p1b = p1.clone();
    p1b.content = "one again".to_string();
    let id1 = p1.id;
    store.add_post(p1);
    store.add_post(p2);
    store.add_post(p1b);
    let mine = store.get_posts_by_author(&peer("a"));
    assert_eq!(mine.len(), 2);
    assert_eq!(mine[0].id, id1);
    assert_eq!(mine[0].content, "one again");
    assert_eq!(mine[1].content, "two");
}

#[test]
fn overflowing_a_mailbox_drops_without_blocking() {
    let mut mux = CadetService::new();
    let mut rx = mux.open_port(CHAT_PORT);
    let ch = mux.create_channel(peer("a"), CHAT_PORT);
    assert_eq!(ch.id, 1);
    for i in 0..MAILBOX_CAPACITY {
        assert!(mux.send(ch.id, vec![(i % 256) as u8]), "send {} should be delivered", i);
    }
    assert!(!mux.send(ch.id, vec![1]));
    assert!(!mux.send(ch.id, vec![2]));
    let mut count = 0;
    while let Ok(m) = rx.try_recv() {
        assert_eq!(m.data, vec![(count % 256) as u8]);
        count += 1;
    }
    assert_eq!(count, MAILBOX_CAPACITY);
}

#[test]
fn receiving_frees_room_in_mailbox() {
    let mut mux = CadetService::new();
    let mut rx = mux.open_port("p");
    let ch = mux.create_channel(peer("a"), "p");
    for _ in 0..MAILBOX_CAPACITY {
        mux.send(ch.id, vec![0]);
    }
    assert!(!mux.send(ch.id, vec![9]));
    let first = rx.try_recv().expect("message");
    assert_eq!(first.channel, ch.id);
    assert_eq!(first.data, vec![0]);
    assert!(mux.send(ch.id, vec![9]));
}

#[test]
fn channel_ids_are_never_reused() {
    let mut mux = CadetService::new();
    let a = mux.create_channel(peer("a"), "p");
    let b = mux.create_channel(peer("b"), "p");
    mux.destroy_channel(a.id);
    let c = mux.create_channel(peer("c"), "p");
    assert_eq!((a.id, b.id, c.id), (1, 2, 3));
    assert_eq!(mux.next_channel_id(), 4);
    let _rx = mux.open_port("p");
    assert!(!mux.send(a.id, vec![1]));
    assert!(mux.send(b.id, vec![1]));
}

#[test]
fn closed_or_reopened_ports_stop_delivery() {
    let mut mux = CadetService::new();
    let mut old_rx = mux.open_port("p");
    let ch = mux.create_channel(peer("a"), "p");
    assert!(mux.send(ch.id, vec![1]));
    let mut new_rx = mux.open_port("p");
    assert!(mux.send(ch.id, vec![2]));
    assert_eq!(old_rx.try_recv().expect("sent before reopening").data, vec![1]);
    assert!(old_rx.try_recv().is_err());
    assert_eq!(new_rx.try_recv().expect("message").data, vec![2]);
    mux.close_port("p");
    assert!(!mux.send(ch.id, vec![3]));
    assert!(new_rx.try_recv().is_err());
}

#[test]
fn unbound_port_gets_nothing() {
    let mut mux = CadetService::new();
    let ch = mux.create_channel(peer("a"), "nowhere");
    assert!(!mux.send(ch.id, vec![1]));
    assert!(!mux.send(99, vec![1]));
}

#[test]
fn broadcast_reaches_each_bound_channel() {
    let mut mux = CadetService::new();
    let mut rx = mux.open_port("p");
    let a = mux.create_channel(peer("a"), "p");
    let _other = mux.create_channel(peer("b"), "q");
    let c = mux.create_channel(peer("c"), "p");
    assert_eq!(mux.broadcast("p", vec![7, 7]), vec![true, true]);
    let m1 = rx.try_recv().expect("first");
    let m2 = rx.try_recv().expect("second");
    assert_eq!((m1.channel, m2.channel), (a.id, c.id));
    assert_eq!(m1.data, vec![7, 7]);
    assert!(rx.try_recv().is_err());
    assert!(mux.broadcast("closed", vec![1]).is_empty());
    let _q = mux.create_channel(peer("d"), "q");
    assert_eq!(mux.broadcast("q", vec![1]), vec![false, false]);
}

fn online(i: usize) -> EventMessage {
    EventMessage::UserOnline { peer_id: format!("p{}", i) }
}

#[test]
fn slow_subscriber_lags_while_fast_one_sees_every_event() {
    let mut bus = EventBus::new();
    let mut fast = bus.subscribe();
    let mut slow = bus.subscribe();
    let total = EVENT_BACKLOG + 5;
    for i in 0..total {
        bus.publish(online(i));
        match bus.try_recv(&mut fast) {
            Received::Event(EventMessage::UserOnline { peer_id }) => assert_eq!(peer_id, format!("p{}", i)),
            _ => panic!("fast subscriber missed event {}", i),
        }
    }
    match bus.try_recv(&mut slow) {
        Received::Lagged(n) => assert_eq!(n, 5),
        _ => panic!("slow subscriber should lag"),
    }
    match bus.try_recv(&mut slow) {
        Received::Event(EventMessage::UserOnline { peer_id }) => assert_eq!(peer_id, "p5"),
        _ => panic!("slow subscriber resumes at the oldest kept event"),
    }
    assert!(matches!(bus.try_recv(&mut fast), Received::Empty));
}

#[test]
fn late_subscriber_gets_no_replay() {
    let mut bus = EventBus::new();
    bus.publish(online(1));
    let mut late = bus.subscribe();
    assert!(matches!(bus.try_recv(&mut late), Received::Empty));
    bus.publish(online(2));
    assert!(matches!(bus.try_recv(&mut late), Received::Event(_)));
}

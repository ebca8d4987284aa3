use gnunet_social::config::Config;
use gnunet_social::crypto::{HashCode, PeerIdentity, PrivateKey, PublicKey};
use gnunet_social::gns::{GnsRecord, GnsService, RecordType};
use gnunet_social::identity::IdentityService;
use gnunet_social::messages::{topic, ErrorResponse};
use gnunet_social::topics::{
    topic_for_events, topic_for_feed, topic_for_room, topic_for_user, topic_global_events,
};

#[test]
fn topics_are_prefixed() {
    assert_eq!(topic("x/y"), "gnunet/social/x/y");
    assert_eq!(topic_for_user("p1"), "gnunet/social/user/p1");
    assert_eq!(topic_for_feed("p1"), "gnunet/social/feed/p1");
    assert_eq!(topic_for_room("r"), "gnunet/social/room/r");
    assert_eq!(topic_for_events("p1"), "gnunet/social/events/p1");
    assert_eq!(topic_global_events(), "gnunet/social/events/global");
}

#[test]
fn keys_and_hashes_keep_their_text() {
    assert_eq!(PeerIdentity::new("abc".to_string()).as_str(), "abc");
    assert_eq!(HashCode::new("h".to_string()).as_str(), "h");
    assert_eq!(PublicKey::new("k".to_string()).as_str(), "k");
    let ego = gnunet_social::identity::Ego::new("e".to_string());
    let suffix = &ego.private_key.as_str()[3..];
    assert_eq!(suffix.len(), 36);
    let sk = PrivateKey::new("secret".to_string());
    assert_eq!(sk.as_str(), "secret");
    assert_eq!(sk.public_key().as_str(), "pub:secret");
}

#[test]
fn generated_identifiers_are_fresh_uuids() {
    let a = PeerIdentity::generate();
    let b = PeerIdentity::generate();
    assert_eq!(a.as_str().len(), 36);
    assert_eq!(a.as_str().chars().filter(|c| *c == '-').count(), 4);
    assert_ne!(a.as_str(), b.as_str());
    let text = a.as_str();
    let parts: Vec<&str> = text.split('-').collect();
    assert_eq!(parts.iter().map(|p| p.len()).collect::<Vec<_>>(), vec![8, 4, 4, 4, 12]);
    assert!(parts[2].starts_with('4'));
    assert!(text.chars().all(|c| c == '-' || c.is_ascii_hexdigit()));
    let post = gnunet_social::social::Post::new(PeerIdentity::new("a".to_string()), "x".to_string());
    assert_eq!((post.id >> 76) & 0xf, 4);
    assert_eq!((post.id >> 62) & 0x3, 2);
    let other = gnunet_social::social::Post::new(PeerIdentity::new("a".to_string()), "x".to_string());
    assert_ne!(post.id, other.id);
    assert!(post.created_at > 1_500_000_000_000);
    let user = gnunet_social::social::User::new("u".to_string(), "z".to_string());
    assert_eq!(user.created_at, user.updated_at);
    assert!(user.created_at > 1_500_000_000_000);
}

#[test]
fn gns_records_accumulate_per_key() {
    let mut gns = GnsService::new();
    let zone = PublicKey::new("zone".to_string());
    assert!(gns.lookup("alice", &zone, "IDENTITY").is_none());
    assert!(gns.lookup_in_local_zone("alice", "IDENTITY").is_none());
    let rec = gns.create_identity_record(&PeerIdentity::new("peer1".to_string()), "alice");
    assert_eq!(rec.record_type, "IDENTITY");
    assert_eq!(rec.data, "peer1:alice");
    assert_eq!(rec.expiration, u64::MAX);
    assert_eq!(rec.flags, 0);
    gns.store_record("alice", &zone, rec);
    gns.store_record(
        "alice",
        &zone,
        GnsRecord { record_type: "IDENTITY".to_string(), data: "second".to_string(), expiration: 5, flags: 1 },
    );
    gns.store_record(
        "alice",
        &zone,
        GnsRecord { record_type: "TEXT".to_string(), data: "t".to_string(), expiration: 5, flags: 0 },
    );
    let found = gns.lookup("alice", &zone, "IDENTITY").expect("records");
    assert_eq!(found.len(), 2);
    assert_eq!(found[1].data, "second");
    assert_eq!(gns.lookup("alice", &zone, "TEXT").expect("records").len(), 1);
    assert!(gns.lookup("bob", &zone, "IDENTITY").is_none());
    gns.set_local_zone(PublicKey::new("zone".to_string()));
    assert_eq!(gns.lookup_in_local_zone("alice", "IDENTITY").expect("records").len(), 2);
}

#[test]
fn record_type_names() {
    assert_eq!(RecordType::A.as_str(), "A");
    assert_eq!(RecordType::AAAA.as_str(), "AAAA");
    assert_eq!(RecordType::GNS2DNS.as_str(), "GNS2DNS");
    assert_eq!(RecordType::IDENTITY.as_str(), "IDENTITY");
    assert_eq!(RecordType::BOX.as_str(), "BOX");
}

#[test]
fn identity_service_tracks_egos_and_default() {
    let mut ids = IdentityService::new();
    assert!(ids.get_default().is_none());
    let a = ids.create_ego("alice");
    let _b = ids.create_ego("bob");
    assert_eq!(a.name, "alice");
    assert!(a.private_key.as_str().starts_with("sk:"));
    assert_eq!(a.public_key.as_str(), format!("pub:{}", a.private_key.as_str()));
    assert_eq!(ids.list_egos().len(), 2);
    assert_eq!(ids.get_ego("bob").expect("bob").name, "bob");
    assert!(ids.get_ego("carol").is_none());
    ids.set_default("alice");
    assert_eq!(ids.get_default().expect("default").private_key.as_str(), a.private_key.as_str());
    ids.set_default("nobody");
    assert!(ids.get_default().is_none());
}

#[test]
fn config_from_file_keeps_path() {
    let c = Config::from_file("/etc/social.conf".to_string());
    assert_eq!(c.config_path.as_deref(), Some("/etc/social.conf"));
    assert_eq!(c.cadet_port, 0);
    assert!(c.peer_identity.is_none());
    let d = Config::default();
    assert!(d.config_path.is_none());
    assert!(d.gns_zone.is_none());
}

#[test]
fn error_response_keeps_code_and_text() {
    let e = ErrorResponse::new(404, "Post not found".to_string());
    assert_eq!(e.code, 404);
    assert_eq!(e.message, "Post not found");
}

use gnunet_social::events::EventBus;
use gnunet_social::handler::MessageHandler;
use gnunet_social::messages::{
    AcceptFriendRequest, AuthRequest, ClientMessage, CreatePostRequest, CreateRoomRequest,
    CreateUserRequest, GetFeedRequest, GetFriendsRequest, GetPostRequest,
    GetPrivateMessagesRequest, GetRoomMessagesRequest, GetRoomsRequest, GetUserRequest,
    JoinRoomRequest, LeaveRoomRequest, LikePostRequest, RequestFriendRequest,
    SearchUsersRequest, SendPrivateMessageRequest, SendRoomMessageRequest, ServerMessage,
    UpdateUserRequest,
};
use gnunet_social::social::{ChatRoom, Post, PostVisibility};
use gnunet_social::store::SocialStore;

struct World {
    store: SocialStore,
    bus: EventBus,
}

impl World {
    fn new() -> World {
        World { store: SocialStore::new(), bus: EventBus::new() }
    }

    fn send(&mut self, session: &mut MessageHandler, msg: ClientMessage) -> ServerMessage {
        session.handle(&mut self.store, &mut self.bus, msg)
    }
}

fn auth(world: &mut World, session: &mut MessageHandler, peer: &str) {
    let r = world.send(
        session,
        ClientMessage::Auth(AuthRequest { peer_id: peer.to_string(), token: None }),
    );
    match r {
        ServerMessage::Auth(a) => {
            assert!(a.success);
            assert_eq!(a.peer_id, peer);
        }
        _ => panic!("expected an auth response"),
    }
}

fn create_post(
    world: &mut World,
    session: &mut MessageHandler,
    content: &str,
    visibility: PostVisibility,
) -> Post {
    let r = world.send(
        session,
        ClientMessage::CreatePost(CreatePostRequest {
            content: content.to_string(),
            media_hashes: vec![],
            reply_to: None,
            repost_of: None,
            visibility,
        }),
    );
    match r {
        ServerMessage::Post(p) => p.post.expect("post"),
        _ => panic!("expected a post response"),
    }
}

fn feed(world: &mut World, session: &mut MessageHandler, viewer: &str, limit: Option<u32>) -> Vec<Post> {
    let r = world.send(
        session,
        ClientMessage::GetFeed(GetFeedRequest { peer_id: viewer.to_string(), limit, before: None }),
    );
    match r {
        ServerMessage::Feed(f) => f.posts,
        _ => panic!("expected a feed"),
    }
}

fn room_of(r: ServerMessage) -> ChatRoom {
    match r {
        ServerMessage::Room(resp) => resp.room.expect("room"),
        _ => panic!("expected a room response"),
    }
}

fn member_names(room: &ChatRoom) -> Vec<String> {
    room.members.iter().map(|m| m.to_string()).collect()
}

fn error_code(r: &ServerMessage) -> Option<u16> {
    match r {
        ServerMessage::Error(e) => Some(e.code),
        _ => None,
    }
}

#[test]
fn create_user_then_post_shows_in_feed_of_another_peer() {
    let mut world = World::new();
    let mut a = MessageHandler::new();
    auth(&mut world, &mut a, "peerA");
    let r = world.send(
        &mut a,
        ClientMessage::CreateUser(CreateUserRequest {
            username: "alice".to_string(),
            display_name: None,
            bio: None,
        }),
    );
    match r {
        ServerMessage::User(u) => {
            let u = u.user.expect("user");
            assert_eq!(u.username, "alice");
            assert_eq!(u.id.as_str(), "peerA");
            assert_eq!(u.display_name, "");
        }
        _ => panic!("expected a user response"),
    }
    let post = create_post(&mut world, &mut a, "hi", PostVisibility::Public);
    assert_ne!(post.id, 0);
    assert_eq!(post.author_id.as_str(), "peerA");
    assert!(post.likes.is_empty());
    assert_eq!(post.reposts, 0);
    assert_eq!(post.content, "hi");
    let posts = feed(&mut world, &mut a, "peerB", Some(10));
    assert!(posts.iter().any(|p| p.id == post.id));
}

#[test]
fn room_membership_follows_join_and_leave() {
    let mut world = World::new();
    let mut a = MessageHandler::new();
    let mut b = MessageHandler::new();
    auth(&mut world, &mut a, "peerA");
    auth(&mut world, &mut b, "peerB");
    let room = room_of(world.send(
        &mut a,
        ClientMessage::CreateRoom(CreateRoomRequest {
            name: "r1".to_string(),
            description: None,
            is_group: true,
            is_public: false,
        }),
    ));
    assert_eq!(room.name, "r1");
    assert!(room.is_group);
    assert_eq!(member_names(&room), vec!["peerA".to_string()]);
    let admins: Vec<String> = room.admins.iter().map(|m| m.to_string()).collect();
    assert_eq!(admins, vec!["peerA".to_string()]);
    let joined = room_of(world.send(&mut b, ClientMessage::JoinRoom(JoinRoomRequest { room_id: room.id })));
    assert_eq!(member_names(&joined), vec!["peerA".to_string(), "peerB".to_string()]);
    let left = room_of(world.send(&mut a, ClientMessage::LeaveRoom(LeaveRoomRequest { room_id: room.id })));
    assert_eq!(member_names(&left), vec!["peerB".to_string()]);
    let stored = world.store.get_room(room.id).expect("stored room");
    assert_eq!(member_names(&stored), vec!["peerB".to_string()]);
}

#[test]
fn joining_twice_keeps_one_membership() {
    let mut world = World::new();
    let mut a = MessageHandler::new();
    auth(&mut world, &mut a, "peerA");
    let room = room_of(world.send(
        &mut a,
        ClientMessage::CreateRoom(CreateRoomRequest {
            name: "r".to_string(),
            description: Some("d".to_string()),
            is_group: false,
            is_public: true,
        }),
    ));
    assert!(room.is_public);
    assert_eq!(room.description.as_deref(), Some("d"));
    let again = room_of(world.send(&mut a, ClientMessage::JoinRoom(JoinRoomRequest { room_id: room.id })));
    assert_eq!(member_names(&again), vec!["peerA".to_string()]);
}

#[test]
fn requests_without_auth_are_rejected_without_effect() {
    let mut world = World::new();
    let mut s = MessageHandler::new();
    let r = world.send(
        &mut s,
        ClientMessage::CreatePost(CreatePostRequest {
            content: "x".to_string(),
            media_hashes: vec![],
            reply_to: None,
            repost_of: None,
            visibility: PostVisibility::Public,
        }),
    );
    assert_eq!(error_code(&r), Some(401));
    let r = world.send(&mut s, ClientMessage::GetFriends(GetFriendsRequest));
    assert_eq!(error_code(&r), Some(401));
    let r = world.send(&mut s, ClientMessage::GetRooms(GetRoomsRequest));
    assert_eq!(error_code(&r), Some(401));
    let mut sub = world.bus.subscribe();
    assert!(matches!(world.bus.try_recv(&mut sub), gnunet_social::events::Received::Empty));
    assert!(world.store.get_posts_by_author(&gnunet_social::crypto::PeerIdentity::new("x".to_string())).is_empty());
}

#[test]
fn missing_records_give_not_found() {
    let mut world = World::new();
    let mut a = MessageHandler::new();
    auth(&mut world, &mut a, "peerA");
    let r = world.send(
        &mut a,
        ClientMessage::UpdateUser(UpdateUserRequest { display_name: Some("A".to_string()), bio: None }),
    );
    assert_eq!(error_code(&r), Some(404));
    let r = world.send(&mut a, ClientMessage::LikePost(LikePostRequest { post_id: 7 }));
    assert_eq!(error_code(&r), Some(404));
    let r = world.send(&mut a, ClientMessage::GetPost(GetPostRequest { post_id: 7 }));
    assert_eq!(error_code(&r), Some(404));
    let r = world.send(&mut a, ClientMessage::JoinRoom(JoinRoomRequest { room_id: 9 }));
    assert_eq!(error_code(&r), Some(404));
    let r = world.send(&mut a, ClientMessage::LeaveRoom(LeaveRoomRequest { room_id: 9 }));
    assert_eq!(error_code(&r), Some(404));
    let r = world.send(
        &mut a,
        ClientMessage::SendRoomMessage(SendRoomMessageRequest {
            room_id: 9,
            content: "x".to_string(),
            media_hashes: vec![],
            reply_to: None,
        }),
    );
    assert_eq!(error_code(&r), Some(404));
    let r = world.send(&mut a, ClientMessage::AcceptFriend(AcceptFriendRequest { peer_id: "peerB".to_string() }));
    assert_eq!(error_code(&r), Some(404));
    let r = world.send(&mut a, ClientMessage::GetUser(GetUserRequest { peer_id: "nobody".to_string() }));
    assert_eq!(error_code(&r), Some(404));
}

#[test]
fn update_user_changes_only_given_fields() {
    let mut world = World::new();
    let mut a = MessageHandler::new();
    auth(&mut world, &mut a, "peerA");
    world.send(
        &mut a,
        ClientMessage::CreateUser(CreateUserRequest {
            username: "alice".to_string(),
            display_name: Some("Alice".to_string()),
            bio: Some("hello".to_string()),
        }),
    );
    let r = world.send(
        &mut a,
        ClientMessage::UpdateUser(UpdateUserRequest { display_name: None, bio: Some("bye".to_string()) }),
    );
    match r {
        ServerMessage::User(u) => {
            let u = u.user.expect("user");
            assert_eq!(u.display_name, "Alice");
            assert_eq!(u.bio.as_deref(), Some("bye"));
            assert!(u.updated_at >= u.created_at);
        }
        _ => panic!("expected a user response"),
    }
    let r = world.send(&mut a, ClientMessage::GetUser(GetUserRequest { peer_id: "peerA".to_string() }));
    match r {
        ServerMessage::User(u) => assert_eq!(u.user.expect("user").bio.as_deref(), Some("bye")),
        _ => panic!("expected a user response"),
    }
}

#[test]
fn feed_hides_private_posts_from_others() {
    let mut world = World::new();
    let mut x = MessageHandler::new();
    auth(&mut world, &mut x, "X");
    let public = create_post(&mut world, &mut x, "pub", PostVisibility::Public);
    let private = create_post(&mut world, &mut x, "priv", PostVisibility::Private);
    let followers = create_post(&mut world, &mut x, "fol", PostVisibility::FollowersOnly);
    let other = feed(&mut world, &mut x, "Y", None);
    assert!(other.iter().any(|p| p.id == public.id));
    assert!(!other.iter().any(|p| p.id == private.id));
    assert!(!other.iter().any(|p| p.id == followers.id));
    let own = feed(&mut world, &mut x, "X", None);
    assert_eq!(own.len(), 3);
    assert!(own.iter().any(|p| p.id == private.id));
}

#[test]
fn feed_filters_before_cutting_to_limit() {
    let mut world = World::new();
    let mut x = MessageHandler::new();
    auth(&mut world, &mut x, "X");
    for _ in 0..3 {
        create_post(&mut world, &mut x, "hidden", PostVisibility::Private);
    }
    let visible = create_post(&mut world, &mut x, "seen", PostVisibility::Public);
    let posts = feed(&mut world, &mut x, "Y", Some(1));
    assert_eq!(posts.len(), 1);
    assert_eq!(posts[0].id, visible.id);
    let none = feed(&mut world, &mut x, "X", Some(0));
    assert!(none.is_empty());
}

#[test]
fn like_then_unlike_restores_likes() {
    let mut world = World::new();
    let mut a = MessageHandler::new();
    auth(&mut world, &mut a, "peerA");
    let post = create_post(&mut world, &mut a, "p", PostVisibility::Public);
    let r = world.send(&mut a, ClientMessage::LikePost(LikePostRequest { post_id: post.id }));
    match r {
        ServerMessage::Post(p) => assert_eq!(p.post.expect("post").likes, vec!["peerA".to_string()]),
        _ => panic!("expected a post"),
    }
    let r = world.send(&mut a, ClientMessage::LikePost(LikePostRequest { post_id: post.id }));
    match r {
        ServerMessage::Post(p) => assert!(p.post.expect("post").likes.is_empty()),
        _ => panic!("expected a post"),
    }
    assert!(world.store.get_post(post.id).expect("post").likes.is_empty());
}

#[test]
fn friend_request_and_accept_link_both_peers() {
    let mut world = World::new();
    let mut a = MessageHandler::new();
    let mut b = MessageHandler::new();
    auth(&mut world, &mut a, "peerA");
    auth(&mut world, &mut b, "peerB");
    let mut sub = world.bus.subscribe();
    let r = world.send(&mut a, ClientMessage::RequestFriend(RequestFriendRequest { peer_id: "peerB".to_string() }));
    match r {
        ServerMessage::Friend(f) => {
            let f = f.friendship.expect("friendship");
            assert_eq!(f.requester_id.as_str(), "peerA");
            assert_eq!(f.addressee_id.as_str(), "peerB");
            assert_eq!(f.status, gnunet_social::social::FriendshipStatus::Pending);
        }
        _ => panic!("expected a friend response"),
    }
    let r = world.send(&mut b, ClientMessage::AcceptFriend(AcceptFriendRequest { peer_id: "peerA".to_string() }));
    assert!(matches!(r, ServerMessage::Friend(_)));
    let friends_of = |world: &mut World, s: &mut MessageHandler| match world.send(s, ClientMessage::GetFriends(GetFriendsRequest)) {
        ServerMessage::Friend(f) => f.friends.expect("friends"),
        _ => panic!("expected friends"),
    };
    assert_eq!(friends_of(&mut world, &mut a), vec!["peerB".to_string()]);
    assert_eq!(friends_of(&mut world, &mut b), vec!["peerA".to_string()]);
    match world.bus.try_recv(&mut sub) {
        gnunet_social::events::Received::Event(gnunet_social::messages::EventMessage::FriendRequest { from, .. }) => assert_eq!(from, "peerA"),
        _ => panic!("expected a friend request event"),
    }
    match world.bus.try_recv(&mut sub) {
        gnunet_social::events::Received::Event(gnunet_social::messages::EventMessage::FriendAccepted { peer_id }) => assert_eq!(peer_id, "peerB"),
        _ => panic!("expected a friend accepted event"),
    }
}

#[test]
fn room_and_private_messages_are_stored_and_listed() {
    let mut world = World::new();
    let mut a = MessageHandler::new();
    auth(&mut world, &mut a, "peerA");
    let room = room_of(world.send(
        &mut a,
        ClientMessage::CreateRoom(CreateRoomRequest { name: "r".to_string(), description: None, is_group: true, is_public: false }),
    ));
    for i in 0..3 {
        let r = world.send(
            &mut a,
            ClientMessage::SendRoomMessage(SendRoomMessageRequest {
                room_id: room.id,
                content: format!("m{}", i),
                media_hashes: vec!["h".to_string()],
                reply_to: None,
            }),
        );
        assert!(matches!(r, ServerMessage::RoomMessage(_)));
    }
    let r = world.send(&mut a, ClientMessage::GetRoomMessages(GetRoomMessagesRequest { room_id: room.id, limit: Some(2), before: None }));
    match r {
        ServerMessage::RoomMessage(m) => {
            let msgs = m.messages.expect("messages");
            assert_eq!(msgs.len(), 2);
            assert_eq!(msgs[0].content, "m0");
            assert_eq!(msgs[1].content, "m1");
            assert_eq!(msgs[0].media_hashes, vec!["h".to_string()]);
        }
        _ => panic!("expected messages"),
    }
    for (to, text) in [("peerB", "to b"), ("peerC", "to c")] {
        let r = world.send(
            &mut a,
            ClientMessage::SendPrivateMessage(SendPrivateMessageRequest { recipient_id: to.to_string(), content: text.to_string(), media_hashes: vec![] }),
        );
        match r {
            ServerMessage::PrivateMessage(p) => assert!(p.message.expect("message").read_at.is_none()),
            _ => panic!("expected a private message"),
        }
    }
    let r = world.send(&mut a, ClientMessage::GetPrivateMessages(GetPrivateMessagesRequest { peer_id: Some("peerC".to_string()), limit: None }));
    match r {
        ServerMessage::PrivateMessage(p) => {
            let msgs = p.messages.expect("messages");
            assert_eq!(msgs.len(), 1);
            assert_eq!(msgs[0].content, "to c");
        }
        _ => panic!("expected messages"),
    }
    let r = world.send(&mut a, ClientMessage::GetPrivateMessages(GetPrivateMessagesRequest { peer_id: None, limit: None }));
    match r {
        ServerMessage::PrivateMessage(p) => assert_eq!(p.messages.expect("messages").len(), 2),
        _ => panic!("expected messages"),
    }
    let r = world.send(&mut a, ClientMessage::GetRooms(GetRoomsRequest));
    match r {
        ServerMessage::Room(resp) => assert_eq!(resp.rooms.expect("rooms").len(), 1),
        _ => panic!("expected rooms"),
    }
    let r = world.send(&mut a, ClientMessage::SearchUsers(SearchUsersRequest { query: "a".to_string(), limit: None }));
    match r {
        ServerMessage::User(u) => assert!(u.user.is_none()),
        _ => panic!("expected a user response"),
    }
}

#[test]
fn events_follow_store_writes_in_order() {
    let mut world = World::new();
    let mut a = MessageHandler::new();
    auth(&mut world, &mut a, "peerA");
    let mut sub = world.bus.subscribe();
    let p1 = create_post(&mut world, &mut a, "one", PostVisibility::Public);
    let p2 = create_post(&mut world, &mut a, "two", PostVisibility::Public);
    for expected in [p1.id, p2.id] {
        match world.bus.try_recv(&mut sub) {
            gnunet_social::events::Received::Event(gnunet_social::messages::EventMessage::NewPost { post }) => assert_eq!(post.id, expected),
            _ => panic!("expected a new post event"),
        }
    }
    assert!(matches!(world.bus.try_recv(&mut sub), gnunet_social::events::Received::Empty));
}

use vstd::prelude::*;
use crate::crypto::PeerIdentity;
use crate::events::{EventBus, Subscriber};
use crate::messages::{
    AcceptFriendRequest, AuthRequest, AuthResponse, ClientMessage, CreatePostRequest,
    CreateRoomRequest, CreateUserRequest, ErrorResponse, EventMessage, EventView, FeedResponse,
    FriendResponse, GetFeedRequest, GetPostRequest, GetPrivateMessagesRequest,
    GetRoomMessagesRequest, GetUserRequest, JoinRoomRequest, LeaveRoomRequest, LikePostRequest,
    PostResponse, PrivateMessageResponse, RequestFriendRequest, RoomMessageResponse,
    RoomResponse, SendPrivateMessageRequest, SendRoomMessageRequest, ServerMessage,
    UpdateUserRequest, UserResponse,
};
use crate::social::{
    ChatMessage, ChatMessageView, ChatRoom, ChatRoomView, Friendship, FriendshipStatus, Post,
    PostView, PostVisibility, PrivateMessage, PrivateMessageView, User, UserView,
};
use crate::store::{
    accept_step, first_n, lemma_feed_visibility, lemma_toggle_twice_same_likers, friends_of, in_room, involves, keep_involving, message_views, post_views,
    private_message_views, room_views, toggled, upsert, visible_for, with_member, without_member,
    has_member, SocialStore,
};
use crate::visibility::pair_key;

verus! {

/// Feed size when the request names none.
pub const DEFAULT_FEED_LIMIT: u32 = 50;

/// Message list size when the request names none.
pub const DEFAULT_MESSAGE_LIMIT: u32 = 100;

/// Whether `r` is an error response with the given code.
pub open spec fn is_error(r: ServerMessage, code: u16) -> bool {
    r matches ServerMessage::Error(e) && e.code == code
}

/// The six collections of the two stores hold the same records.
pub open spec fn same_store(a: SocialStore, b: SocialStore) -> bool {
    &&& b.users() == a.users()
    &&& b.posts() == a.posts()
    &&& b.rooms() == a.rooms()
    &&& b.messages() == a.messages()
    &&& b.friendships() == a.friendships()
    &&& b.private_messages() == a.private_messages()
}

/// Every collection but the users holds the same records.
pub open spec fn users_only_changed(a: SocialStore, b: SocialStore) -> bool {
    &&& b.posts() == a.posts()
    &&& b.rooms() == a.rooms()
    &&& b.messages() == a.messages()
    &&& b.friendships() == a.friendships()
    &&& b.private_messages() == a.private_messages()
}

/// Every collection but the posts holds the same records.
pub open spec fn posts_only_changed(a: SocialStore, b: SocialStore) -> bool {
    &&& b.users() == a.users()
    &&& b.rooms() == a.rooms()
    &&& b.messages() == a.messages()
    &&& b.friendships() == a.friendships()
    &&& b.private_messages() == a.private_messages()
}

/// Every collection but the rooms holds the same records.
pub open spec fn rooms_only_changed(a: SocialStore, b: SocialStore) -> bool {
    &&& b.users() == a.users()
    &&& b.posts() == a.posts()
    &&& b.messages() == a.messages()
    &&& b.friendships() == a.friendships()
    &&& b.private_messages() == a.private_messages()
}

/// No event was published between the two buses, and both serve the
/// same subscribers.
pub open spec fn same_bus(a: EventBus, b: EventBus) -> bool {
    &&& b.sent() == a.sent()
    &&& forall|s: Subscriber| a.serves(&s) ==> b.serves(&s)
}

/// `b` is `a` after publishing `e`, serving the same subscribers.
pub open spec fn published(a: EventBus, b: EventBus, e: EventView) -> bool {
    &&& b.sent() == a.sent().push(e)
    &&& forall|s: Subscriber| a.serves(&s) ==> b.serves(&s)
}

/// The number of items a response holds at most: the request's limit, or
/// the default.
pub open spec fn limit_or(limit: Option<u32>, default: u32) -> int {
    match limit {
        Some(n) => n as int,
        None => default as int,
    }
}

/// The user a response carries.
pub open spec fn user_of(r: ServerMessage) -> Option<UserView> {
    match r {
        ServerMessage::User(resp) => match resp.user {
            Some(u) => Some(u@),
            None => None,
        },
        _ => None,
    }
}

/// The post a response carries.
pub open spec fn post_of(r: ServerMessage) -> Option<PostView> {
    match r {
        ServerMessage::Post(resp) => match resp.post {
            Some(p) => Some(p@),
            None => None,
        },
        _ => None,
    }
}

/// The single room a room response carries, when it carries no list.
pub open spec fn room_of(r: ServerMessage) -> Option<ChatRoomView> {
    match r {
        ServerMessage::Room(resp) => match (resp.room, resp.rooms) {
            (Some(x), None) => Some(x@),
            _ => None,
        },
        _ => None,
    }
}

/// The room list a room response carries, when it carries no single room.
pub open spec fn rooms_of(r: ServerMessage) -> Option<Seq<ChatRoomView>> {
    match r {
        ServerMessage::Room(resp) => match (resp.room, resp.rooms) {
            (None, Some(v)) => Some(room_views(v@)),
            _ => None,
        },
        _ => None,
    }
}

/// The message list a room-message response carries, when it carries no
/// single message.
pub open spec fn room_messages_of(r: ServerMessage) -> Option<Seq<ChatMessageView>> {
    match r {
        ServerMessage::RoomMessage(resp) => match (resp.message, resp.messages) {
            (None, Some(v)) => Some(message_views(v@)),
            _ => None,
        },
        _ => None,
    }
}

/// The message list a private-message response carries, when it carries
/// no single message.
pub open spec fn private_messages_of(r: ServerMessage) -> Option<Seq<PrivateMessageView>> {
    match r {
        ServerMessage::PrivateMessage(resp) => match (resp.message, resp.messages) {
            (None, Some(v)) => Some(private_message_views(v@)),
            _ => None,
        },
        _ => None,
    }
}

/// The friend list a friend response carries, when it carries no
/// friendship.
pub open spec fn friends_in(r: ServerMessage) -> Option<Seq<Seq<char>>> {
    match r {
        ServerMessage::Friend(resp) => match (resp.friendship, resp.friends) {
            (None, Some(v)) => Some(v.deep_view()),
            _ => None,
        },
        _ => None,
    }
}

/// What creating a user leaves behind: a user with the session's peer as
/// identifier and zone, the requested name, display name (empty when none)
/// and bio, stored in place of any earlier record of that peer.
pub open spec fn create_user_done(
    s0: SocialStore,
    s1: SocialStore,
    peer: Seq<char>,
    req: CreateUserRequest,
    r: ServerMessage,
) -> bool {
    match r {
        ServerMessage::User(resp) => match resp.user {
            Some(u) => {
                &&& u@.id == peer
                &&& u@.username == req.username@
                &&& u@.gns_zone == peer
                &&& u@.display_name == match req.display_name {
                    Some(d) => d@,
                    None => Seq::empty(),
                }
                &&& u@.bio == req.bio.deep_view()
                &&& u@.avatar_hash is None
                &&& u@.created_at == u@.updated_at
                &&& s1.users() == upsert(s0.user_ids(), s0.users(), peer, u@)
                &&& s1.posts() == s0.posts()
                &&& s1.rooms() == s0.rooms()
                &&& s1.messages() == s0.messages()
                &&& s1.friendships() == s0.friendships()
                &&& s1.private_messages() == s0.private_messages()
            },
            None => false,
        },
        _ => false,
    }
}

/// What creating a post leaves behind: a post with a fresh non-zero
/// identifier by the session's peer with the requested fields, no likes and
/// no reposts, stored and then published.
pub open spec fn create_post_done(
    s0: SocialStore,
    s1: SocialStore,
    b0: EventBus,
    b1: EventBus,
    peer: Seq<char>,
    req: CreatePostRequest,
    r: ServerMessage,
) -> bool {
    match r {
        ServerMessage::Post(resp) => match resp.post {
            Some(p) => {
                &&& p@.id != 0
                &&& p@.author_id == peer
                &&& p@.content == req.content@
                &&& p@.media_hashes == req.media_hashes.deep_view()
                &&& p@.reply_to == req.reply_to
                &&& p@.repost_of == req.repost_of
                &&& p@.visibility == req.visibility
                &&& p@.likes.len() == 0
                &&& p@.reposts == 0
                &&& s1.posts() == upsert(s0.post_ids(), s0.posts(), p@.id, p@)
                &&& s1.users() == s0.users()
                &&& s1.rooms() == s0.rooms()
                &&& s1.messages() == s0.messages()
                &&& s1.friendships() == s0.friendships()
                &&& s1.private_messages() == s0.private_messages()
                &&& published(b0, b1, EventView::NewPost { post: p@ })
            },
            None => false,
        },
        _ => false,
    }
}

/// What creating a room leaves behind: a room with a fresh non-zero
/// identifier owned by the session's peer, who is its only admin and only
/// member, with the requested fields, stored.
pub open spec fn create_room_done(
    s0: SocialStore,
    s1: SocialStore,
    peer: Seq<char>,
    req: CreateRoomRequest,
    r: ServerMessage,
) -> bool {
    match r {
        ServerMessage::Room(resp) => match resp.room {
            Some(x) => {
                &&& resp.rooms is None
                &&& x@.id != 0
                &&& x@.name == req.name@
                &&& x@.description == req.description.deep_view()
                &&& x@.owner_id == peer
                &&& x@.admins == seq![peer]
                &&& x@.members == seq![peer]
                &&& x@.is_group == req.is_group
                &&& x@.is_public == req.is_public
                &&& s1.rooms() == upsert(s0.room_ids(), s0.rooms(), x@.id, x@)
                &&& s1.users() == s0.users()
                &&& s1.posts() == s0.posts()
                &&& s1.messages() == s0.messages()
                &&& s1.friendships() == s0.friendships()
                &&& s1.private_messages() == s0.private_messages()
            },
            None => false,
        },
        _ => false,
    }
}

/// What sending a room message leaves behind: a 404 with nothing changed
/// when the room does not exist; otherwise a message with a fresh non-zero
/// identifier from the session's peer, stored and then published.
pub open spec fn room_message_done(
    s0: SocialStore,
    s1: SocialStore,
    b0: EventBus,
    b1: EventBus,
    peer: Seq<char>,
    req: SendRoomMessageRequest,
    r: ServerMessage,
) -> bool {
    if !s0.room_ids().contains(req.room_id) {
        is_error(r, 404) && same_store(s0, s1) && same_bus(b0, b1)
    } else {
        match r {
            ServerMessage::RoomMessage(resp) => match resp.message {
                Some(m) => {
                    &&& resp.messages is None
                    &&& m@.id != 0
                    &&& m@.room_id == req.room_id
                    &&& m@.sender_id == peer
                    &&& m@.content == req.content@
                    &&& m@.media_hashes == req.media_hashes.deep_view()
                    &&& m@.reply_to == req.reply_to
                    &&& s1.messages() == upsert(s0.message_ids(), s0.messages(), m@.id, m@)
                    &&& s1.users() == s0.users()
                    &&& s1.posts() == s0.posts()
                    &&& s1.rooms() == s0.rooms()
                    &&& s1.friendships() == s0.friendships()
                    &&& s1.private_messages() == s0.private_messages()
                    &&& published(
                        b0,
                        b1,
                        EventView::NewRoomMessage { room_id: req.room_id, message: m@ },
                    )
                },
                None => false,
            },
            _ => false,
        }
    }
}

/// What a friend request leaves behind: a pending friendship from the
/// session's peer to the named peer, stored under the pair's key in place of
/// any earlier one, and then published.
pub open spec fn request_friend_done(
    s0: SocialStore,
    s1: SocialStore,
    b0: EventBus,
    b1: EventBus,
    peer: Seq<char>,
    req: RequestFriendRequest,
    r: ServerMessage,
) -> bool {
    match r {
        ServerMessage::Friend(resp) => match resp.friendship {
            Some(f) => {
                &&& resp.friends is None
                &&& f@.requester_id == peer
                &&& f@.addressee_id == req.peer_id@
                &&& f@.status == FriendshipStatus::Pending
                &&& f@.created_at == f@.updated_at
                &&& s1.friendships() == upsert(
                    s0.friendship_keys(),
                    s0.friendships(),
                    pair_key(peer, req.peer_id@),
                    f@,
                )
                &&& s1.users() == s0.users()
                &&& s1.posts() == s0.posts()
                &&& s1.rooms() == s0.rooms()
                &&& s1.messages() == s0.messages()
                &&& s1.private_messages() == s0.private_messages()
                &&& published(b0, b1, EventView::FriendRequest { from: peer, friendship: f@ })
            },
            None => false,
        },
        _ => false,
    }
}

/// What a private message leaves behind: a message with a fresh non-zero
/// identifier from the session's peer to the named recipient, stored and
/// then published.
pub open spec fn private_message_done(
    s0: SocialStore,
    s1: SocialStore,
    b0: EventBus,
    b1: EventBus,
    peer: Seq<char>,
    req: SendPrivateMessageRequest,
    r: ServerMessage,
) -> bool {
    match r {
        ServerMessage::PrivateMessage(resp) => match resp.message {
            Some(m) => {
                &&& resp.messages is None
                &&& m@.id != 0
                &&& m@.sender_id == peer
                &&& m@.recipient_id == req.recipient_id@
                &&& m@.content == req.content@
                &&& m@.media_hashes == req.media_hashes.deep_view()
                &&& m@.read_at is None
                &&& s1.private_messages() == upsert(
                    s0.private_message_ids(),
                    s0.private_messages(),
                    m@.id,
                    m@,
                )
                &&& s1.users() == s0.users()
                &&& s1.posts() == s0.posts()
                &&& s1.rooms() == s0.rooms()
                &&& s1.messages() == s0.messages()
                &&& s1.friendships() == s0.friendships()
                &&& published(b0, b1, EventView::NewPrivateMessage { message: m@ })
            },
            None => false,
        },
        _ => false,
    }
}

/// What updating the session's user leaves behind: a 404 with nothing
/// changed when the peer has no user; otherwise the given display name and
/// bio replace the old ones and the update time does not move back.
pub open spec fn update_user_done(
    s0: SocialStore,
    s1: SocialStore,
    peer: Seq<char>,
    req: UpdateUserRequest,
    r: ServerMessage,
) -> bool {
    match s0.user(peer) {
        None => is_error(r, 404) && same_store(s0, s1),
        Some(u) => {
            let i = crate::store::index_of(s0.user_ids(), peer);
            let nu = s1.users()[i];
            &&& users_only_changed(s0, s1)
            &&& s1.users().len() == s0.users().len()
            &&& forall|j: int| 0 <= j < s0.users().len() && j != i ==> s1.users()[j] == s0.users()[j]
            &&& user_of(r) == Some(nu)
            &&& nu.display_name == match req.display_name {
                Some(d) => d@,
                None => u.display_name,
            }
            &&& nu.bio == match req.bio {
                Some(b) => Some(b@),
                None => u.bio,
            }
            &&& nu.id == u.id
            &&& nu.username == u.username
            &&& nu.avatar_hash == u.avatar_hash
            &&& nu.gns_zone == u.gns_zone
            &&& nu.created_at == u.created_at
            &&& nu.updated_at >= u.updated_at
            &&& nu.updated_at >= nu.created_at
        },
    }
}

/// The feed for the named viewer: every post the viewer may see, in
/// insertion order, filtered first and then cut to the limit.
pub open spec fn feed_done(
    s: SocialStore,
    req: GetFeedRequest,
    r: ServerMessage,
) -> bool {
    r matches ServerMessage::Feed(resp) && post_views(resp.posts@) == first_n(
        s.posts().filter(visible_for(req.peer_id@)),
        limit_or(req.limit, DEFAULT_FEED_LIMIT),
    )
}

/// The post asked for, or a 404 when there is none.
pub open spec fn get_post_done(
    s: SocialStore,
    req: GetPostRequest,
    r: ServerMessage,
) -> bool {
    match s.post(req.post_id) {
        None => is_error(r, 404),
        Some(p) => post_of(r) == Some(p),
    }
}

/// What a like leaves behind: a 404 with nothing changed when there is no
/// such post; otherwise the session's peer toggles its like on it.
pub open spec fn like_post_done(
    s0: SocialStore,
    s1: SocialStore,
    peer: Seq<char>,
    req: LikePostRequest,
    r: ServerMessage,
) -> bool {
    match s0.post(req.post_id) {
        None => is_error(r, 404) && same_store(s0, s1),
        Some(p) => {
            let np = PostView { likes: toggled(p.likes, peer), ..p };
            &&& posts_only_changed(s0, s1)
            &&& s1.posts() == s0.posts().update(
                crate::store::index_of(s0.post_ids(), req.post_id),
                np,
            )
            &&& post_of(r) == Some(np)
        },
    }
}

/// The rooms that have the session's peer among their members.
pub open spec fn get_rooms_done(
    s: SocialStore,
    peer: Seq<char>,
    r: ServerMessage,
) -> bool {
    rooms_of(r) == Some(s.rooms().filter(has_member(peer)))
}

/// What joining leaves behind: a 404 with nothing changed when there is no
/// such room; otherwise the session's peer is among its members.
pub open spec fn join_room_done(
    s0: SocialStore,
    s1: SocialStore,
    peer: Seq<char>,
    req: JoinRoomRequest,
    r: ServerMessage,
) -> bool {
    match s0.room(req.room_id) {
        None => is_error(r, 404) && same_store(s0, s1),
        Some(x) => {
            let nx = ChatRoomView { members: with_member(x.members, peer), ..x };
            &&& rooms_only_changed(s0, s1)
            &&& s1.rooms() == s0.rooms().update(
                crate::store::index_of(s0.room_ids(), req.room_id),
                nx,
            )
            &&& room_of(r) == Some(nx)
        },
    }
}

/// What leaving leaves behind: a 404 with nothing changed when there is no
/// such room; otherwise the session's peer is no longer among its members.
pub open spec fn leave_room_done(
    s0: SocialStore,
    s1: SocialStore,
    peer: Seq<char>,
    req: LeaveRoomRequest,
    r: ServerMessage,
) -> bool {
    match s0.room(req.room_id) {
        None => is_error(r, 404) && same_store(s0, s1),
        Some(x) => {
            let nx = ChatRoomView { members: without_member(x.members, peer), ..x };
            &&& rooms_only_changed(s0, s1)
            &&& s1.rooms() == s0.rooms().update(
                crate::store::index_of(s0.room_ids(), req.room_id),
                nx,
            )
            &&& room_of(r) == Some(nx)
        },
    }
}

/// The messages of the room, in insertion order, cut to the limit.
pub open spec fn room_messages_done(
    s: SocialStore,
    req: GetRoomMessagesRequest,
    r: ServerMessage,
) -> bool {
    room_messages_of(r) == Some(
        first_n(
            s.messages().filter(in_room(req.room_id)),
            limit_or(req.limit, DEFAULT_MESSAGE_LIMIT),
        ),
    )
}

/// What accepting leaves behind: the pair's friendship, if any, is accepted
/// and the acceptance published; a 404 with nothing published otherwise.
pub open spec fn accept_friend_done(
    s0: SocialStore,
    s1: SocialStore,
    b0: EventBus,
    b1: EventBus,
    peer: Seq<char>,
    req: AcceptFriendRequest,
    r: ServerMessage,
) -> bool {
    {
        let found = s0.friendship_keys().contains(pair_key(peer, req.peer_id@));
        &&& accept_step(
            s0.friendship_keys(),
            s0.friendships(),
            s1.friendships(),
            peer,
            req.peer_id@,
            found,
        )
        &&& s1.users() == s0.users()
        &&& s1.posts() == s0.posts()
        &&& s1.rooms() == s0.rooms()
        &&& s1.messages() == s0.messages()
        &&& s1.private_messages() == s0.private_messages()
        &&& if found {
            &&& match r {
                ServerMessage::Friend(resp) => resp.friendship is None && resp.friends is None,
                _ => false,
            }
            &&& published(b0, b1, EventView::FriendAccepted { peer_id: peer })
        } else {
            is_error(r, 404) && same_bus(b0, b1)
        }
    }
}

/// The peers that have an accepted friendship with the session's peer.
pub open spec fn get_friends_done(
    s: SocialStore,
    peer: Seq<char>,
    r: ServerMessage,
) -> bool {
    friends_in(r) == Some(friends_of(s.friendships(), peer))
}

/// The private messages the session's peer sent or received, only those
/// that also involve the named peer when one is named, cut to the limit.
pub open spec fn private_messages_done(
    s: SocialStore,
    peer: Seq<char>,
    req: GetPrivateMessagesRequest,
    r: ServerMessage,
) -> bool {
    private_messages_of(r) == Some(
        first_n(
            match req.peer_id {
                Some(other) => s.private_messages().filter(involves(peer)).filter(
                    involves(other@),
                ),
                None => s.private_messages().filter(involves(peer)),
            },
            limit_or(req.limit, DEFAULT_MESSAGE_LIMIT),
        ),
    )
}

/// The user asked for, or a 404 when there is none.
pub open spec fn get_user_done(
    s: SocialStore,
    req: GetUserRequest,
    r: ServerMessage,
) -> bool {
    match s.user(req.peer_id@) {
        None => is_error(r, 404),
        Some(u) => user_of(r) == Some(u),
    }
}

/// User search answers with no user.
pub open spec fn search_done(
    r: ServerMessage,
) -> bool {
    r matches ServerMessage::User(resp) && resp.user is None
}

/// What handling `msg` on a session does. Auth sets the session's peer and
/// touches nothing else. Any other request on a session with no peer is
/// answered with a 401 and changes nothing; otherwise it does what its kind
/// says, and only the kinds that publish change the bus.
pub open spec fn handled(
    h0: MessageHandler,
    h1: MessageHandler,
    s0: SocialStore,
    s1: SocialStore,
    b0: EventBus,
    b1: EventBus,
    msg: ClientMessage,
    r: ServerMessage,
) -> bool {
    match msg {
        ClientMessage::Auth(req) => {
            &&& h1.peer() == Some(req.peer_id@)
            &&& r matches ServerMessage::Auth(a) && a.success && a.peer_id@ == req.peer_id@
            &&& same_store(s0, s1)
            &&& same_bus(b0, b1)
        },
        _ => {
            &&& h1.peer() == h0.peer()
            &&& match h0.peer() {
                None => is_error(r, 401) && same_store(s0, s1) && same_bus(b0, b1),
                Some(peer) => match msg {
                    ClientMessage::CreateUser(req) => create_user_done(s0, s1, peer, req, r)
                        && same_bus(b0, b1),
                    ClientMessage::UpdateUser(req) => update_user_done(s0, s1, peer, req, r)
                        && same_bus(b0, b1),
                    ClientMessage::CreatePost(req) => create_post_done(s0, s1, b0, b1, peer, req, r),
                    ClientMessage::GetFeed(req) => feed_done(s0, req, r) && same_store(s0, s1)
                        && same_bus(b0, b1),
                    ClientMessage::GetPost(req) => get_post_done(s0, req, r) && same_store(s0, s1)
                        && same_bus(b0, b1),
                    ClientMessage::LikePost(req) => like_post_done(s0, s1, peer, req, r)
                        && same_bus(b0, b1),
                    ClientMessage::CreateRoom(req) => create_room_done(s0, s1, peer, req, r)
                        && same_bus(b0, b1),
                    ClientMessage::GetRooms(_) => get_rooms_done(s0, peer, r) && same_store(s0, s1)
                        && same_bus(b0, b1),
                    ClientMessage::JoinRoom(req) => join_room_done(s0, s1, peer, req, r)
                        && same_bus(b0, b1),
                    ClientMessage::LeaveRoom(req) => leave_room_done(s0, s1, peer, req, r)
                        && same_bus(b0, b1),
                    ClientMessage::SendRoomMessage(req) => room_message_done(
                        s0,
                        s1,
                        b0,
                        b1,
                        peer,
                        req,
                        r,
                    ),
                    ClientMessage::GetRoomMessages(req) => room_messages_done(s0, req, r)
                        && same_store(s0, s1) && same_bus(b0, b1),
                    ClientMessage::RequestFriend(req) => request_friend_done(
                        s0,
                        s1,
                        b0,
                        b1,
                        peer,
                        req,
                        r,
                    ),
                    ClientMessage::AcceptFriend(req) => accept_friend_done(
                        s0,
                        s1,
                        b0,
                        b1,
                        peer,
                        req,
                        r,
                    ),
                    ClientMessage::GetFriends(_) => get_friends_done(s0, peer, r) && same_store(
                        s0,
                        s1,
                    ) && same_bus(b0, b1),
                    ClientMessage::SendPrivateMessage(req) => private_message_done(
                        s0,
                        s1,
                        b0,
                        b1,
                        peer,
                        req,
                        r,
                    ),
                    ClientMessage::GetPrivateMessages(req) => private_messages_done(
                        s0,
                        peer,
                        req,
                        r,
                    ) && same_store(s0, s1) && same_bus(b0, b1),
                    ClientMessage::GetUser(req) => get_user_done(s0, req, r) && same_store(s0, s1)
                        && same_bus(b0, b1),
                    ClientMessage::SearchUsers(_) => search_done(r) && same_store(s0, s1)
                        && same_bus(b0, b1),
                    ClientMessage::Auth(_) => false,
                },
            }
        },
    }
}

/// The connection's session: which peer, if any, authenticated on it.
pub struct MessageHandler {
    current_peer: Option<PeerIdentity>,
}

impl MessageHandler {
    pub closed spec fn peer(&self) -> Option<Seq<char>> {
        match self.current_peer {
            Some(p) => Some(p@),
            None => None,
        }
    }

    /// A session with no authenticated peer.
    pub fn new() -> (r: MessageHandler)
        ensures
            r.peer() is None,
    {
        MessageHandler { current_peer: None }
    }

    pub fn set_current_peer(&mut self, peer: PeerIdentity)
        ensures
            final(self).peer() == Some(peer@),
    {
        self.current_peer = Some(peer);
    }

    pub fn current_peer(&self) -> (r: Option<PeerIdentity>)
        ensures
            r.is_some() == self.peer().is_some(),
            r matches Some(p) ==> self.peer() == Some(p@),
    {
        match &self.current_peer {
            Some(p) => Some(p.duplicate()),
            None => None,
        }
    }
}

impl Default for MessageHandler {
    fn default() -> (r: MessageHandler)
        ensures
            r.peer() is None,
    {
        MessageHandler::new()
    }
}

fn unauthenticated() -> (r: ServerMessage)
    ensures
        is_error(r, 401),
{
    ServerMessage::Error(ErrorResponse::new(401, String::from_str("Not authenticated")))
}

fn not_found(what: &str) -> (r: ServerMessage)
    ensures
        is_error(r, 404),
{
    ServerMessage::Error(ErrorResponse::new(404, String::from_str(what)))
}

/// The identifiers of a list of peers, as strings.
fn peer_strings(v: &Vec<PeerIdentity>) -> (r: Vec<String>)
    ensures
        r.deep_view() == v.deep_view(),
{
    let mut out: Vec<String> = Vec::new();
    let mut i: usize = 0;
    while i < v.len()
        invariant
            i <= v@.len(),
            out@.len() == i,
            forall|j: int| 0 <= j < i ==> out@[j]@ == v@[j]@,
        decreases v@.len() - i,
    {
        out.push(v[i].to_string());
        i = i + 1;
    }
    assert(out.deep_view() =~= v.deep_view());
    out
}

fn limit_of(limit: Option<u32>, default: u32) -> (r: usize)
    ensures
        r == limit_or(limit, default),
{
    match limit {
        Some(n) => n as usize,
        None => default as usize,
    }
}

impl MessageHandler {
    fn handle_auth(&mut self, req: AuthRequest) -> (r: ServerMessage)
        ensures
            final(self).peer() == Some(req.peer_id@),
            r matches ServerMessage::Auth(a) && a.success && a.peer_id@ == req.peer_id@,
    {
        let peer = PeerIdentity::new(req.peer_id);
        let id = peer.to_string();
        self.set_current_peer(peer);
        ServerMessage::Auth(AuthResponse { success: true, peer_id: id })
    }

    fn handle_create_user(&self, store: &mut SocialStore, req: CreateUserRequest) -> (r: ServerMessage)
        requires
            old(store).wf(),
        ensures
            final(store).wf(),
            match self.peer() {
                None => is_error(r, 401) && same_store(*old(store), *final(store)),
                Some(peer) => create_user_done(*old(store), *final(store), peer, req, r),
            },
    {
        let peer = match self.current_peer() {
            Some(p) => p,
            None => return unauthenticated(),
        };
        let mut user = User::new(req.username, peer.to_string());
        user.id = peer;
        user.display_name = match req.display_name {
            Some(d) => d,
            None => String::new(),
        };
        user.bio = req.bio;
        let out = user.duplicate();
        store.add_user(user);
        ServerMessage::User(UserResponse { user: Some(out) })
    }

    fn handle_update_user(&self, store: &mut SocialStore, req: UpdateUserRequest) -> (r: ServerMessage)
        requires
            old(store).wf(),
        ensures
            final(store).wf(),
            match self.peer() {
                None => is_error(r, 401) && same_store(*old(store), *final(store)),
                Some(peer) => update_user_done(*old(store), *final(store), peer, req, r),
            },
    {
        let peer = match self.current_peer() {
            Some(p) => p,
            None => return unauthenticated(),
        };
        match store.update_user(&peer, req.display_name, req.bio) {
            Some(user) => ServerMessage::User(UserResponse { user: Some(user) }),
            None => not_found("User not found"),
        }
    }

    fn handle_create_post(
        &self,
        store: &mut SocialStore,
        bus: &mut EventBus,
        req: CreatePostRequest,
    ) -> (r: ServerMessage)
        requires
            old(store).wf(),
            old(bus).wf(),
            old(bus).sent().len() < u64::MAX,
        ensures
            final(store).wf(),
            final(bus).wf(),
            match self.peer() {
                None => is_error(r, 401) && same_store(*old(store), *final(store)) && same_bus(
                    *old(bus),
                    *final(bus),
                ),
                Some(peer) => create_post_done(
                    *old(store),
                    *final(store),
                    *old(bus),
                    *final(bus),
                    peer,
                    req,
                    r,
                ),
            },
    {
        let peer = match self.current_peer() {
            Some(p) => p,
            None => return unauthenticated(),
        };
        let mut post = Post::new(peer, req.content);
        post.media_hashes = req.media_hashes;
        post.reply_to = req.reply_to;
        post.repost_of = req.repost_of;
        post.visibility = req.visibility;
        let out = post.duplicate();
        let event = post.duplicate();
        store.add_post(post);
        bus.publish(EventMessage::NewPost { post: event });
        ServerMessage::Post(PostResponse { post: Some(out) })
    }

    fn handle_get_feed(&self, store: &SocialStore, req: GetFeedRequest) -> (r: ServerMessage)
        ensures
            match self.peer() {
                None => is_error(r, 401),
                Some(_) => feed_done(*store, req, r),
            },
    {
        if self.current_peer.is_none() {
            return unauthenticated();
        }
        let viewer = PeerIdentity::new(req.peer_id);
        let limit = limit_of(req.limit, DEFAULT_FEED_LIMIT);
        let posts = store.visible_posts(&viewer, limit);
        ServerMessage::Feed(FeedResponse { posts })
    }

    fn handle_get_post(&self, store: &SocialStore, req: GetPostRequest) -> (r: ServerMessage)
        requires
            store.wf(),
        ensures
            match self.peer() {
                None => is_error(r, 401),
                Some(_) => get_post_done(*store, req, r),
            },
    {
        if self.current_peer.is_none() {
            return unauthenticated();
        }
        match store.get_post(req.post_id) {
            Some(p) => ServerMessage::Post(PostResponse { post: Some(p) }),
            None => not_found("Post not found"),
        }
    }

    fn handle_like_post(&self, store: &mut SocialStore, req: LikePostRequest) -> (r: ServerMessage)
        requires
            old(store).wf(),
        ensures
            final(store).wf(),
            match self.peer() {
                None => is_error(r, 401) && same_store(*old(store), *final(store)),
                Some(peer) => like_post_done(*old(store), *final(store), peer, req, r),
            },
    {
        let peer = match self.current_peer() {
            Some(p) => p,
            None => return unauthenticated(),
        };
        let who = peer.to_string();
        match store.toggle_like(req.post_id, &who) {
            Some(p) => ServerMessage::Post(PostResponse { post: Some(p) }),
            None => not_found("Post not found"),
        }
    }

    fn handle_create_room(&self, store: &mut SocialStore, req: CreateRoomRequest) -> (r: ServerMessage)
        requires
            old(store).wf(),
        ensures
            final(store).wf(),
            match self.peer() {
                None => is_error(r, 401) && same_store(*old(store), *final(store)),
                Some(peer) => create_room_done(*old(store), *final(store), peer, req, r),
            },
    {
        let peer = match self.current_peer() {
            Some(p) => p,
            None => return unauthenticated(),
        };
        let mut room = ChatRoom::new(req.name, peer, req.is_group);
        room.description = req.description;
        room.is_public = req.is_public;
        let out = room.duplicate();
        store.add_room(room);
        ServerMessage::Room(RoomResponse { room: Some(out), rooms: None })
    }

    fn handle_get_rooms(&self, store: &SocialStore) -> (r: ServerMessage)
        ensures
            match self.peer() {
                None => is_error(r, 401),
                Some(peer) => get_rooms_done(*store, peer, r),
            },
    {
        let peer = match self.current_peer() {
            Some(p) => p,
            None => return unauthenticated(),
        };
        let rooms = store.rooms_of_member(&peer);
        ServerMessage::Room(RoomResponse { room: None, rooms: Some(rooms) })
    }

    fn handle_join_room(&self, store: &mut SocialStore, req: JoinRoomRequest) -> (r: ServerMessage)
        requires
            old(store).wf(),
        ensures
            final(store).wf(),
            match self.peer() {
                None => is_error(r, 401) && same_store(*old(store), *final(store)),
                Some(peer) => join_room_done(*old(store), *final(store), peer, req, r),
            },
    {
        let peer = match self.current_peer() {
            Some(p) => p,
            None => return unauthenticated(),
        };
        match store.join_room(req.room_id, &peer) {
            Some(room) => ServerMessage::Room(RoomResponse { room: Some(room), rooms: None }),
            None => not_found("Room not found"),
        }
    }

    fn handle_leave_room(&self, store: &mut SocialStore, req: LeaveRoomRequest) -> (r: ServerMessage)
        requires
            old(store).wf(),
        ensures
            final(store).wf(),
            match self.peer() {
                None => is_error(r, 401) && same_store(*old(store), *final(store)),
                Some(peer) => leave_room_done(*old(store), *final(store), peer, req, r),
            },
    {
        let peer = match self.current_peer() {
            Some(p) => p,
            None => return unauthenticated(),
        };
        match store.leave_room(req.room_id, &peer) {
            Some(room) => ServerMessage::Room(RoomResponse { room: Some(room), rooms: None }),
            None => not_found("Room not found"),
        }
    }

    fn handle_send_room_message(
        &self,
        store: &mut SocialStore,
        bus: &mut EventBus,
        req: SendRoomMessageRequest,
    ) -> (r: ServerMessage)
        requires
            old(store).wf(),
            old(bus).wf(),
            old(bus).sent().len() < u64::MAX,
        ensures
            final(store).wf(),
            final(bus).wf(),
            match self.peer() {
                None => is_error(r, 401) && same_store(*old(store), *final(store)) && same_bus(
                    *old(bus),
                    *final(bus),
                ),
                Some(peer) => room_message_done(
                    *old(store),
                    *final(store),
                    *old(bus),
                    *final(bus),
                    peer,
                    req,
                    r,
                ),
            },
    {
        let peer = match self.current_peer() {
            Some(p) => p,
            None => return unauthenticated(),
        };
        if !store.has_room(req.room_id) {
            return not_found("Room not found");
        }
        let room_id = req.room_id;
        let mut msg = ChatMessage::new(room_id, peer, req.content);
        msg.media_hashes = req.media_hashes;
        msg.reply_to = req.reply_to;
        let out = msg.duplicate();
        let event = msg.duplicate();
        store.add_message(msg);
        bus.publish(EventMessage::NewRoomMessage { room_id, message: event });
        ServerMessage::RoomMessage(RoomMessageResponse { message: Some(out), messages: None })
    }

    fn handle_get_room_messages(&self, store: &SocialStore, req: GetRoomMessagesRequest) -> (r:
        ServerMessage)
        ensures
            match self.peer() {
                None => is_error(r, 401),
                Some(_) => room_messages_done(*store, req, r),
            },
    {
        if self.current_peer.is_none() {
            return unauthenticated();
        }
        let limit = limit_of(req.limit, DEFAULT_MESSAGE_LIMIT);
        let mut messages = store.get_room_messages(req.room_id);
        let ghost all = messages@;
        messages.truncate(limit);
        assert(message_views(messages@) =~= first_n(message_views(all), limit as int));
        ServerMessage::RoomMessage(RoomMessageResponse { message: None, messages: Some(messages) })
    }

    fn handle_request_friend(
        &self,
        store: &mut SocialStore,
        bus: &mut EventBus,
        req: RequestFriendRequest,
    ) -> (r: ServerMessage)
        requires
            old(store).wf(),
            old(bus).wf(),
            old(bus).sent().len() < u64::MAX,
        ensures
            final(store).wf(),
            final(bus).wf(),
            match self.peer() {
                None => is_error(r, 401) && same_store(*old(store), *final(store)) && same_bus(
                    *old(bus),
                    *final(bus),
                ),
                Some(peer) => request_friend_done(
                    *old(store),
                    *final(store),
                    *old(bus),
                    *final(bus),
                    peer,
                    req,
                    r,
                ),
            },
    {
        let peer = match self.current_peer() {
            Some(p) => p,
            None => return unauthenticated(),
        };
        let from = peer.to_string();
        let addressee = PeerIdentity::new(req.peer_id);
        let friendship = Friendship::new(peer, addressee);
        let out = friendship.duplicate();
        let event = friendship.duplicate();
        store.request_friendship(friendship);
        bus.publish(EventMessage::FriendRequest { from, friendship: event });
        ServerMessage::Friend(FriendResponse { friendship: Some(out), friends: None })
    }

    fn handle_accept_friend(
        &self,
        store: &mut SocialStore,
        bus: &mut EventBus,
        req: AcceptFriendRequest,
    ) -> (r: ServerMessage)
        requires
            old(store).wf(),
            old(bus).wf(),
            old(bus).sent().len() < u64::MAX,
        ensures
            final(store).wf(),
            final(bus).wf(),
            match self.peer() {
                None => is_error(r, 401) && same_store(*old(store), *final(store)) && same_bus(
                    *old(bus),
                    *final(bus),
                ),
                Some(peer) => accept_friend_done(*old(store), *final(store), *old(bus), *final(bus), peer, req, r),
            },
    {
        let peer = match self.current_peer() {
            Some(p) => p,
            None => return unauthenticated(),
        };
        let requester = PeerIdentity::new(req.peer_id);
        if store.accept_friendship(&peer, &requester) {
            bus.publish(EventMessage::FriendAccepted { peer_id: peer.to_string() });
            ServerMessage::Friend(FriendResponse { friendship: None, friends: None })
        } else {
            not_found("Friend request not found")
        }
    }

    fn handle_get_friends(&self, store: &SocialStore) -> (r: ServerMessage)
        ensures
            match self.peer() {
                None => is_error(r, 401),
                Some(peer) => get_friends_done(*store, peer, r),
            },
    {
        let peer = match self.current_peer() {
            Some(p) => p,
            None => return unauthenticated(),
        };
        let friends = peer_strings(&store.get_friends(&peer));
        ServerMessage::Friend(FriendResponse { friendship: None, friends: Some(friends) })
    }

    fn handle_send_private_message(
        &self,
        store: &mut SocialStore,
        bus: &mut EventBus,
        req: SendPrivateMessageRequest,
    ) -> (r: ServerMessage)
        requires
            old(store).wf(),
            old(bus).wf(),
            old(bus).sent().len() < u64::MAX,
        ensures
            final(store).wf(),
            final(bus).wf(),
            match self.peer() {
                None => is_error(r, 401) && same_store(*old(store), *final(store)) && same_bus(
                    *old(bus),
                    *final(bus),
                ),
                Some(peer) => private_message_done(
                    *old(store),
                    *final(store),
                    *old(bus),
                    *final(bus),
                    peer,
                    req,
                    r,
                ),
            },
    {
        let peer = match self.current_peer() {
            Some(p) => p,
            None => return unauthenticated(),
        };
        let recipient = PeerIdentity::new(req.recipient_id);
        let mut msg = PrivateMessage::new(peer, recipient, req.content);
        msg.media_hashes = req.media_hashes;
        let out = msg.duplicate();
        let event = msg.duplicate();
        store.add_private_message(msg);
        bus.publish(EventMessage::NewPrivateMessage { message: event });
        ServerMessage::PrivateMessage(PrivateMessageResponse { message: Some(out), messages: None })
    }

    fn handle_get_private_messages(&self, store: &SocialStore, req: GetPrivateMessagesRequest) -> (r:
        ServerMessage)
        ensures
            match self.peer() {
                None => is_error(r, 401),
                Some(peer) => private_messages_done(*store, peer, req, r),
            },
    {
        let peer = match self.current_peer() {
            Some(p) => p,
            None => return unauthenticated(),
        };
        let limit = limit_of(req.limit, DEFAULT_MESSAGE_LIMIT);
        let mine = store.get_private_messages(&peer);
        let mut messages = match req.peer_id {
            Some(other) => keep_involving(&mine, &PeerIdentity::new(other)),
            None => mine,
        };
        let ghost all = messages@;
        messages.truncate(limit);
        assert(private_message_views(messages@) =~= first_n(private_message_views(all), limit as int));
        ServerMessage::PrivateMessage(PrivateMessageResponse { message: None, messages: Some(messages) })
    }

    fn handle_get_user(&self, store: &SocialStore, req: GetUserRequest) -> (r: ServerMessage)
        requires
            store.wf(),
        ensures
            match self.peer() {
                None => is_error(r, 401),
                Some(_) => get_user_done(*store, req, r),
            },
    {
        if self.current_peer.is_none() {
            return unauthenticated();
        }
        match store.get_user(req.peer_id.as_str()) {
            Some(u) => ServerMessage::User(UserResponse { user: Some(u) }),
            None => not_found("User not found"),
        }
    }

    fn handle_search_users(&self) -> (r: ServerMessage)
        ensures
            match self.peer() {
                None => is_error(r, 401),
                Some(_) => search_done(r),
            },
    {
        if self.current_peer.is_none() {
            return unauthenticated();
        }
        ServerMessage::User(UserResponse { user: None })
    }

    /// Answers one request of this connection against the shared store and
    /// bus.
    pub fn handle(&mut self, store: &mut SocialStore, bus: &mut EventBus, msg: ClientMessage) -> (r:
        ServerMessage)
        requires
            old(store).wf(),
            old(bus).wf(),
            old(bus).sent().len() < u64::MAX,
        ensures
            final(store).wf(),
            final(bus).wf(),
            handled(*old(self), *final(self), *old(store), *final(store), *old(bus), *final(bus), msg, r),
    {
        match msg {
            ClientMessage::Auth(req) => self.handle_auth(req),
            ClientMessage::CreateUser(req) => self.handle_create_user(store, req),
            ClientMessage::UpdateUser(req) => self.handle_update_user(store, req),
            ClientMessage::CreatePost(req) => self.handle_create_post(store, bus, req),
            ClientMessage::GetFeed(req) => self.handle_get_feed(store, req),
            ClientMessage::GetPost(req) => self.handle_get_post(store, req),
            ClientMessage::LikePost(req) => self.handle_like_post(store, req),
            ClientMessage::CreateRoom(req) => self.handle_create_room(store, req),
            ClientMessage::GetRooms(_) => self.handle_get_rooms(store),
            ClientMessage::JoinRoom(req) => self.handle_join_room(store, req),
            ClientMessage::LeaveRoom(req) => self.handle_leave_room(store, req),
            ClientMessage::SendRoomMessage(req) => self.handle_send_room_message(store, bus, req),
            ClientMessage::GetRoomMessages(req) => self.handle_get_room_messages(store, req),
            ClientMessage::RequestFriend(req) => self.handle_request_friend(store, bus, req),
            ClientMessage::AcceptFriend(req) => self.handle_accept_friend(store, bus, req),
            ClientMessage::GetFriends(_) => self.handle_get_friends(store),
            ClientMessage::SendPrivateMessage(req) => self.handle_send_private_message(store, bus, req),
            ClientMessage::GetPrivateMessages(req) => self.handle_get_private_messages(store, req),
            ClientMessage::GetUser(req) => self.handle_get_user(store, req),
            ClientMessage::SearchUsers(_) => self.handle_search_users(),
        }
    }
}

/// Liking a post through the router and then liking it again as the same
/// peer leaves the post with the likers it had and every other field as it
/// was.
pub proof fn lemma_router_like_twice(
    s0: SocialStore,
    s1: SocialStore,
    s2: SocialStore,
    peer: Seq<char>,
    req: LikePostRequest,
    r1: ServerMessage,
    r2: ServerMessage,
)
    requires
        s0.wf(),
        s0.post(req.post_id) is Some,
        like_post_done(s0, s1, peer, req, r1),
        like_post_done(s1, s2, peer, req, r2),
    ensures
        s2.post(req.post_id) matches Some(q) && q == (PostView {
            likes: q.likes,
            ..s0.post(req.post_id).unwrap()
        }) && q.likes.to_set() == s0.post(req.post_id).unwrap().likes.to_set(),
{
    let p = s0.post(req.post_id).unwrap();
    assert(s1.post_ids() =~= s0.post_ids());
    assert(s1.post(req.post_id) == Some(PostView { likes: toggled(p.likes, peer), ..p }));
    let p1 = s1.post(req.post_id).unwrap();
    assert(s2.post_ids() =~= s1.post_ids());
    assert(s2.post(req.post_id) == Some(PostView { likes: toggled(p1.likes, peer), ..p1 }));
    lemma_toggle_twice_same_likers(p.likes, peer);
}

/// Through the router, a feed whose limit covers every visible post holds
/// every public post of the store, whoever the viewer is; and a private post
/// shows in a feed only when the viewer wrote it.
pub proof fn lemma_router_feed_visibility(s: SocialStore, req: GetFeedRequest, r: ServerMessage, p: PostView)
    requires
        feed_done(s, req, r),
    ensures
        s.posts().contains(p) && p.visibility == PostVisibility::Public && s.posts().filter(
            visible_for(req.peer_id@),
        ).len() <= limit_or(req.limit, DEFAULT_FEED_LIMIT) ==> (r matches ServerMessage::Feed(
            resp,
        ) && post_views(resp.posts@).contains(p)),
        (r matches ServerMessage::Feed(resp) && post_views(resp.posts@).contains(p))
            && p.visibility == PostVisibility::Private ==> p.author_id == req.peer_id@,
{
    let f = s.posts().filter(visible_for(req.peer_id@));
    let limit = limit_or(req.limit, DEFAULT_FEED_LIMIT);
    if f.len() <= limit {
        lemma_feed_visibility(s.posts(), req.peer_id@, limit, p);
    }
    if let ServerMessage::Feed(resp) = r {
        let out = post_views(resp.posts@);
        if out.contains(p) {
            let k = choose|k: int| 0 <= k < out.len() && out[k] == p;
            assert(f[k] == p);
            s.posts().lemma_filter_pred(visible_for(req.peer_id@), k);
        }
    }
}

} // verus!

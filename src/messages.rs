use vstd::prelude::*;
use crate::social::{
    ChatMessage, ChatMessageView, ChatRoom, Friendship, FriendshipView, Post, PostView,
    PostVisibility, PrivateMessage, PrivateMessageView, User,
};

verus! {

pub const TOPIC_PREFIX: &'static str = "gnunet/social";

/// The full topic name of `path`: the prefix, a slash, then the path.
pub fn topic(path: &str) -> (r: String)
    ensures
        r@ == TOPIC_PREFIX@ + seq!['/'] + path@,
{
    proof {
        reveal_strlit("/");
    }
    String::from_str(TOPIC_PREFIX).concat("/").concat(path)
}

pub struct AuthRequest {
    pub peer_id: String,
    pub token: Option<String>,
}

pub struct CreateUserRequest {
    pub username: String,
    pub display_name: Option<String>,
    pub bio: Option<String>,
}

pub struct UpdateUserRequest {
    pub display_name: Option<String>,
    pub bio: Option<String>,
}

pub struct CreatePostRequest {
    pub content: String,
    pub media_hashes: Vec<String>,
    pub reply_to: Option<u128>,
    pub repost_of: Option<u128>,
    pub visibility: PostVisibility,
}

pub struct GetFeedRequest {
    pub peer_id: String,
    pub limit: Option<u32>,
    pub before: Option<i64>,
}

pub struct GetPostRequest {
    pub post_id: u128,
}

pub struct LikePostRequest {
    pub post_id: u128,
}

pub struct CreateRoomRequest {
    pub name: String,
    pub description: Option<String>,
    pub is_group: bool,
    pub is_public: bool,
}

pub struct GetRoomsRequest;

pub struct JoinRoomRequest {
    pub room_id: u128,
}

pub struct LeaveRoomRequest {
    pub room_id: u128,
}

pub struct SendRoomMessageRequest {
    pub room_id: u128,
    pub content: String,
    pub media_hashes: Vec<String>,
    pub reply_to: Option<u128>,
}

pub struct GetRoomMessagesRequest {
    pub room_id: u128,
    pub limit: Option<u32>,
    pub before: Option<i64>,
}

pub struct RequestFriendRequest {
    pub peer_id: String,
}

pub struct AcceptFriendRequest {
    pub peer_id: String,
}

pub struct GetFriendsRequest;

pub struct SendPrivateMessageRequest {
    pub recipient_id: String,
    pub content: String,
    pub media_hashes: Vec<String>,
}

pub struct GetPrivateMessagesRequest {
    pub peer_id: Option<String>,
    pub limit: Option<u32>,
}

pub struct GetUserRequest {
    pub peer_id: String,
}

pub struct SearchUsersRequest {
    pub query: String,
    pub limit: Option<u32>,
}

/// A decoded client request.
pub enum ClientMessage {
    Auth(AuthRequest),
    CreateUser(CreateUserRequest),
    UpdateUser(UpdateUserRequest),
    CreatePost(CreatePostRequest),
    GetFeed(GetFeedRequest),
    GetPost(GetPostRequest),
    LikePost(LikePostRequest),
    CreateRoom(CreateRoomRequest),
    GetRooms(GetRoomsRequest),
    JoinRoom(JoinRoomRequest),
    LeaveRoom(LeaveRoomRequest),
    SendRoomMessage(SendRoomMessageRequest),
    GetRoomMessages(GetRoomMessagesRequest),
    RequestFriend(RequestFriendRequest),
    AcceptFriend(AcceptFriendRequest),
    GetFriends(GetFriendsRequest),
    SendPrivateMessage(SendPrivateMessageRequest),
    GetPrivateMessages(GetPrivateMessagesRequest),
    GetUser(GetUserRequest),
    SearchUsers(SearchUsersRequest),
}

pub struct AuthResponse {
    pub success: bool,
    pub peer_id: String,
}

pub struct UserResponse {
    pub user: Option<User>,
}

pub struct PostResponse {
    pub post: Option<Post>,
}

pub struct FeedResponse {
    pub posts: Vec<Post>,
}

pub struct RoomResponse {
    pub room: Option<ChatRoom>,
    pub rooms: Option<Vec<ChatRoom>>,
}

pub struct RoomMessageResponse {
    pub message: Option<ChatMessage>,
    pub messages: Option<Vec<ChatMessage>>,
}

pub struct FriendResponse {
    pub friendship: Option<Friendship>,
    pub friends: Option<Vec<String>>,
}

pub struct PrivateMessageResponse {
    pub message: Option<PrivateMessage>,
    pub messages: Option<Vec<PrivateMessage>>,
}

pub struct ErrorResponse {
    pub code: u16,
    pub message: String,
}

impl ErrorResponse {
    pub fn new(code: u16, message: String) -> (r: ErrorResponse)
        ensures
            r.code == code,
            r.message@ == message@,
    {
        ErrorResponse { code, message }
    }
}

/// A response to a client request, or an event pushed to it.
pub enum ServerMessage {
    Auth(AuthResponse),
    User(UserResponse),
    Post(PostResponse),
    Feed(FeedResponse),
    Room(RoomResponse),
    RoomMessage(RoomMessageResponse),
    Friend(FriendResponse),
    PrivateMessage(PrivateMessageResponse),
    Error(ErrorResponse),
    Event(EventMessage),
}

pub enum EventView {
    NewPost { post: PostView },
    NewRoomMessage { room_id: u128, message: ChatMessageView },
    NewPrivateMessage { message: PrivateMessageView },
    FriendRequest { from: Seq<char>, friendship: FriendshipView },
    FriendAccepted { peer_id: Seq<char> },
    UserOnline { peer_id: Seq<char> },
    UserOffline { peer_id: Seq<char> },
}

/// A domain event fanned out to subscribers.
#[derive(Debug, Clone)]
pub enum EventMessage {
    NewPost { post: Post },
    NewRoomMessage { room_id: u128, message: ChatMessage },
    NewPrivateMessage { message: PrivateMessage },
    FriendRequest { from: String, friendship: Friendship },
    FriendAccepted { peer_id: String },
    UserOnline { peer_id: String },
    UserOffline { peer_id: String },
}

impl View for EventMessage {
    type V = EventView;

    open spec fn view(&self) -> EventView {
        match self {
            EventMessage::NewPost { post } => EventView::NewPost { post: post@ },
            EventMessage::NewRoomMessage { room_id, message } => EventView::NewRoomMessage {
                room_id: *room_id,
                message: message@,
            },
            EventMessage::NewPrivateMessage { message } => EventView::NewPrivateMessage {
                message: message@,
            },
            EventMessage::FriendRequest { from, friendship } => EventView::FriendRequest {
                from: from@,
                friendship: friendship@,
            },
            EventMessage::FriendAccepted { peer_id } => EventView::FriendAccepted {
                peer_id: peer_id@,
            },
            EventMessage::UserOnline { peer_id } => EventView::UserOnline { peer_id: peer_id@ },
            EventMessage::UserOffline { peer_id } => EventView::UserOffline { peer_id: peer_id@ },
        }
    }
}

impl EventMessage {
    pub fn duplicate(&self) -> (r: EventMessage)
        ensures
            r@ == self@,
    {
        match self {
            EventMessage::NewPost { post } => EventMessage::NewPost { post: post.duplicate() },
            EventMessage::NewRoomMessage { room_id, message } => EventMessage::NewRoomMessage {
                room_id: *room_id,
                message: message.duplicate(),
            },
            EventMessage::NewPrivateMessage { message } => EventMessage::NewPrivateMessage {
                message: message.duplicate(),
            },
            EventMessage::FriendRequest { from, friendship } => EventMessage::FriendRequest {
                from: from.clone(),
                friendship: friendship.duplicate(),
            },
            EventMessage::FriendAccepted { peer_id } => EventMessage::FriendAccepted {
                peer_id: peer_id.clone(),
            },
            EventMessage::UserOnline { peer_id } => EventMessage::UserOnline {
                peer_id: peer_id.clone(),
            },
            EventMessage::UserOffline { peer_id } => EventMessage::UserOffline {
                peer_id: peer_id.clone(),
            },
        }
    }
}

} // verus!

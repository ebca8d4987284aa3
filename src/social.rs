use vstd::prelude::*;
use crate::crypto::PeerIdentity;
use crate::platform::{new_uuid, now_millis};

verus! {

/// Who may see a post besides its author.
#[derive(Debug, Clone, Copy, PartialEq, Eq, Structural)]
pub enum PostVisibility {
    Public,
    FollowersOnly,
    MutualsOnly,
    Private,
}

#[derive(Debug, Clone, Copy, PartialEq, Eq, Structural)]
pub enum FriendshipStatus {
    Pending,
    Accepted,
    Blocked,
}

/// A copy of a list of strings.
pub fn clone_strings(v: &Vec<String>) -> (r: Vec<String>)
    ensures
        r@ == v@,
        r.deep_view() == v.deep_view(),
{
    let mut r: Vec<String> = Vec::new();
    let mut i: usize = 0;
    while i < v.len()
        invariant
            i <= v.len(),
            r@ == v@.subrange(0, i as int),
        decreases v.len() - i,
    {
        r.push(v[i].clone());
        i = i + 1;
    }
    assert(r@ == v@);
    r
}

/// A copy of a list of peers.
pub fn clone_peers(v: &Vec<PeerIdentity>) -> (r: Vec<PeerIdentity>)
    ensures
        r.deep_view() == v.deep_view(),
{
    let mut r: Vec<PeerIdentity> = Vec::new();
    let mut i: usize = 0;
    while i < v.len()
        invariant
            i <= v.len(),
            r@.len() == i,
            forall|j: int| 0 <= j < i ==> r@[j]@ == v@[j]@,
        decreases v.len() - i,
    {
        r.push(v[i].duplicate());
        i = i + 1;
    }
    assert(r.deep_view() =~= v.deep_view());
    r
}

/// A copy of an optional string.
pub fn clone_opt(o: &Option<String>) -> (r: Option<String>)
    ensures
        r == *o,
{
    match o {
        Some(s) => Some(s.clone()),
        None => None,
    }
}

pub struct UserView {
    pub id: Seq<char>,
    pub username: Seq<char>,
    pub display_name: Seq<char>,
    pub bio: Option<Seq<char>>,
    pub avatar_hash: Option<Seq<char>>,
    pub gns_zone: Seq<char>,
    pub created_at: i64,
    pub updated_at: i64,
}

#[derive(Debug, Clone)]
pub struct User {
    pub id: PeerIdentity,
    pub username: String,
    pub display_name: String,
    pub bio: Option<String>,
    pub avatar_hash: Option<String>,
    pub gns_zone: String,
    pub created_at: i64,
    pub updated_at: i64,
}

impl View for User {
    type V = UserView;

    open spec fn view(&self) -> UserView {
        UserView {
            id: self.id@,
            username: self.username@,
            display_name: self.display_name@,
            bio: self.bio.deep_view(),
            avatar_hash: self.avatar_hash.deep_view(),
            gns_zone: self.gns_zone@,
            created_at: self.created_at,
            updated_at: self.updated_at,
        }
    }
}

impl User {
    /// A user with a fresh identifier, an empty display name, no bio and
    /// both timestamps set to now.
    pub fn new(username: String, gns_zone: String) -> (r: User)
        ensures
            r@.username == username@,
            r@.gns_zone == gns_zone@,
            r@.display_name.len() == 0,
            r@.bio is None,
            r@.avatar_hash is None,
            r@.created_at == r@.updated_at,
    {
        let now = now_millis();
        User {
            id: PeerIdentity::generate(),
            username,
            display_name: String::new(),
            bio: None,
            avatar_hash: None,
            gns_zone,
            created_at: now,
            updated_at: now,
        }
    }

    pub fn duplicate(&self) -> (r: User)
        ensures
            r@ == self@,
    {
        User {
            id: self.id.duplicate(),
            username: self.username.clone(),
            display_name: self.display_name.clone(),
            bio: clone_opt(&self.bio),
            avatar_hash: clone_opt(&self.avatar_hash),
            gns_zone: self.gns_zone.clone(),
            created_at: self.created_at,
            updated_at: self.updated_at,
        }
    }
}

pub struct PostView {
    pub id: u128,
    pub author_id: Seq<char>,
    pub content: Seq<char>,
    pub media_hashes: Seq<Seq<char>>,
    pub reply_to: Option<u128>,
    pub repost_of: Option<u128>,
    pub visibility: PostVisibility,
    pub created_at: i64,
    pub likes: Seq<Seq<char>>,
    pub reposts: u64,
}

#[derive(Debug, Clone)]
pub struct Post {
    pub id: u128,
    pub author_id: PeerIdentity,
    pub content: String,
    pub media_hashes: Vec<String>,
    pub reply_to: Option<u128>,
    pub repost_of: Option<u128>,
    pub visibility: PostVisibility,
    pub created_at: i64,
    pub likes: Vec<String>,
    pub reposts: u64,
}

impl View for Post {
    type V = PostView;

    open spec fn view(&self) -> PostView {
        PostView {
            id: self.id,
            author_id: self.author_id@,
            content: self.content@,
            media_hashes: self.media_hashes.deep_view(),
            reply_to: self.reply_to,
            repost_of: self.repost_of,
            visibility: self.visibility,
            created_at: self.created_at,
            likes: self.likes.deep_view(),
            reposts: self.reposts,
        }
    }
}

impl Post {
    /// A public post with a fresh non-zero identifier, no media, no likes and
    /// no reposts.
    pub fn new(author_id: PeerIdentity, content: String) -> (r: Post)
        ensures
            r@.id != 0,
            r@.author_id == author_id@,
            r@.content == content@,
            r@.media_hashes.len() == 0,
            r@.reply_to is None,
            r@.repost_of is None,
            r@.visibility == PostVisibility::Public,
            r@.likes.len() == 0,
            r@.reposts == 0,
    {
        let id = new_uuid();
        proof {
            crate::platform::lemma_uuid_nonzero(id);
        }
        Post {
            id,
            author_id,
            content,
            media_hashes: Vec::new(),
            reply_to: None,
            repost_of: None,
            visibility: PostVisibility::Public,
            created_at: now_millis(),
            likes: Vec::new(),
            reposts: 0,
        }
    }

    pub fn duplicate(&self) -> (r: Post)
        ensures
            r@ == self@,
    {
        Post {
            id: self.id,
            author_id: self.author_id.duplicate(),
            content: self.content.clone(),
            media_hashes: clone_strings(&self.media_hashes),
            reply_to: self.reply_to,
            repost_of: self.repost_of,
            visibility: self.visibility,
            created_at: self.created_at,
            likes: clone_strings(&self.likes),
            reposts: self.reposts,
        }
    }
}

pub struct ChatRoomView {
    pub id: u128,
    pub name: Seq<char>,
    pub description: Option<Seq<char>>,
    pub owner_id: Seq<char>,
    pub admins: Seq<Seq<char>>,
    pub members: Seq<Seq<char>>,
    pub is_group: bool,
    pub is_public: bool,
    pub created_at: i64,
}

#[derive(Debug, Clone)]
pub struct ChatRoom {
    pub id: u128,
    pub name: String,
    pub description: Option<String>,
    pub owner_id: PeerIdentity,
    pub admins: Vec<PeerIdentity>,
    pub members: Vec<PeerIdentity>,
    pub is_group: bool,
    pub is_public: bool,
    pub created_at: i64,
}

impl View for ChatRoom {
    type V = ChatRoomView;

    open spec fn view(&self) -> ChatRoomView {
        ChatRoomView {
            id: self.id,
            name: self.name@,
            description: self.description.deep_view(),
            owner_id: self.owner_id@,
            admins: self.admins.deep_view(),
            members: self.members.deep_view(),
            is_group: self.is_group,
            is_public: self.is_public,
            created_at: self.created_at,
        }
    }
}

impl ChatRoom {
    /// A private room with a fresh non-zero identifier whose owner is its
    /// only admin and its only member.
    pub fn new(name: String, owner_id: PeerIdentity, is_group: bool) -> (r: ChatRoom)
        ensures
            r@.id != 0,
            r@.name == name@,
            r@.description is None,
            r@.owner_id == owner_id@,
            r@.admins == seq![owner_id@],
            r@.members == seq![owner_id@],
            r@.is_group == is_group,
            !r@.is_public,
    {
        let id = new_uuid();
        proof {
            crate::platform::lemma_uuid_nonzero(id);
        }
        let admins = vec![owner_id.duplicate()];
        let members = vec![owner_id.duplicate()];
        assert(admins.deep_view() =~= seq![owner_id@]);
        assert(members.deep_view() =~= seq![owner_id@]);
        ChatRoom {
            id,
            name,
            description: None,
            owner_id,
            admins,
            members,
            is_group,
            is_public: false,
            created_at: now_millis(),
        }
    }

    pub fn duplicate(&self) -> (r: ChatRoom)
        ensures
            r@ == self@,
    {
        ChatRoom {
            id: self.id,
            name: self.name.clone(),
            description: clone_opt(&self.description),
            owner_id: self.owner_id.duplicate(),
            admins: clone_peers(&self.admins),
            members: clone_peers(&self.members),
            is_group: self.is_group,
            is_public: self.is_public,
            created_at: self.created_at,
        }
    }
}

pub struct ChatMessageView {
    pub id: u128,
    pub room_id: u128,
    pub sender_id: Seq<char>,
    pub content: Seq<char>,
    pub media_hashes: Seq<Seq<char>>,
    pub reply_to: Option<u128>,
    pub created_at: i64,
}

#[derive(Debug, Clone)]
pub struct ChatMessage {
    pub id: u128,
    pub room_id: u128,
    pub sender_id: PeerIdentity,
    pub content: String,
    pub media_hashes: Vec<String>,
    pub reply_to: Option<u128>,
    pub created_at: i64,
}

impl View for ChatMessage {
    type V = ChatMessageView;

    open spec fn view(&self) -> ChatMessageView {
        ChatMessageView {
            id: self.id,
            room_id: self.room_id,
            sender_id: self.sender_id@,
            content: self.content@,
            media_hashes: self.media_hashes.deep_view(),
            reply_to: self.reply_to,
            created_at: self.created_at,
        }
    }
}

impl ChatMessage {
    /// A message with a fresh non-zero identifier, no media and no reply.
    pub fn new(room_id: u128, sender_id: PeerIdentity, content: String) -> (r: ChatMessage)
        ensures
            r@.id != 0,
            r@.room_id == room_id,
            r@.sender_id == sender_id@,
            r@.content == content@,
            r@.media_hashes.len() == 0,
            r@.reply_to is None,
    {
        let id = new_uuid();
        proof {
            crate::platform::lemma_uuid_nonzero(id);
        }
        ChatMessage {
            id,
            room_id,
            sender_id,
            content,
            media_hashes: Vec::new(),
            reply_to: None,
            created_at: now_millis(),
        }
    }

    pub fn duplicate(&self) -> (r: ChatMessage)
        ensures
            r@ == self@,
    {
        ChatMessage {
            id: self.id,
            room_id: self.room_id,
            sender_id: self.sender_id.duplicate(),
            content: self.content.clone(),
            media_hashes: clone_strings(&self.media_hashes),
            reply_to: self.reply_to,
            created_at: self.created_at,
        }
    }
}

pub struct FriendshipView {
    pub requester_id: Seq<char>,
    pub addressee_id: Seq<char>,
    pub status: FriendshipStatus,
    pub created_at: i64,
    pub updated_at: i64,
}

#[derive(Debug, Clone)]
pub struct Friendship {
    pub requester_id: PeerIdentity,
    pub addressee_id: PeerIdentity,
    pub status: FriendshipStatus,
    pub created_at: i64,
    pub updated_at: i64,
}

impl View for Friendship {
    type V = FriendshipView;

    open spec fn view(&self) -> FriendshipView {
        FriendshipView {
            requester_id: self.requester_id@,
            addressee_id: self.addressee_id@,
            status: self.status,
            created_at: self.created_at,
            updated_at: self.updated_at,
        }
    }
}

impl Friendship {
    /// A pending request from `requester_id` to `addressee_id`.
    pub fn new(requester_id: PeerIdentity, addressee_id: PeerIdentity) -> (r: Friendship)
        ensures
            r@.requester_id == requester_id@,
            r@.addressee_id == addressee_id@,
            r@.status == FriendshipStatus::Pending,
            r@.created_at == r@.updated_at,
    {
        let now = now_millis();
        Friendship {
            requester_id,
            addressee_id,
            status: FriendshipStatus::Pending,
            created_at: now,
            updated_at: now,
        }
    }

    /// Marks the friendship accepted. The update time never moves back and
    /// never goes below the creation time.
    pub fn accept(&mut self)
        ensures
            final(self)@.status == FriendshipStatus::Accepted,
            final(self)@.requester_id == old(self)@.requester_id,
            final(self)@.addressee_id == old(self)@.addressee_id,
            final(self)@.created_at == old(self)@.created_at,
            final(self)@.updated_at >= old(self)@.updated_at,
            final(self)@.updated_at >= old(self)@.created_at,
    {
        let now = now_millis();
        let mut t = self.updated_at;
        if t < self.created_at {
            t = self.created_at;
        }
        if now > t {
            t = now;
        }
        self.status = FriendshipStatus::Accepted;
        self.updated_at = t;
    }

    pub fn duplicate(&self) -> (r: Friendship)
        ensures
            r@ == self@,
    {
        Friendship {
            requester_id: self.requester_id.duplicate(),
            addressee_id: self.addressee_id.duplicate(),
            status: self.status,
            created_at: self.created_at,
            updated_at: self.updated_at,
        }
    }
}

pub struct PrivateMessageView {
    pub id: u128,
    pub sender_id: Seq<char>,
    pub recipient_id: Seq<char>,
    pub content: Seq<char>,
    pub media_hashes: Seq<Seq<char>>,
    pub created_at: i64,
    pub read_at: Option<i64>,
}

#[derive(Debug, Clone)]
pub struct PrivateMessage {
    pub id: u128,
    pub sender_id: PeerIdentity,
    pub recipient_id: PeerIdentity,
    pub content: String,
    pub media_hashes: Vec<String>,
    pub created_at: i64,
    pub read_at: Option<i64>,
}

impl View for PrivateMessage {
    type V = PrivateMessageView;

    open spec fn view(&self) -> PrivateMessageView {
        PrivateMessageView {
            id: self.id,
            sender_id: self.sender_id@,
            recipient_id: self.recipient_id@,
            content: self.content@,
            media_hashes: self.media_hashes.deep_view(),
            created_at: self.created_at,
            read_at: self.read_at,
        }
    }
}

impl PrivateMessage {
    /// An unread message with a fresh non-zero identifier and no media.
    pub fn new(sender_id: PeerIdentity, recipient_id: PeerIdentity, content: String) -> (r:
        PrivateMessage)
        ensures
            r@.id != 0,
            r@.sender_id == sender_id@,
            r@.recipient_id == recipient_id@,
            r@.content == content@,
            r@.media_hashes.len() == 0,
            r@.read_at is None,
    {
        let id = new_uuid();
        proof {
            crate::platform::lemma_uuid_nonzero(id);
        }
        PrivateMessage {
            id,
            sender_id,
            recipient_id,
            content,
            media_hashes: Vec::new(),
            created_at: now_millis(),
            read_at: None,
        }
    }

    pub fn duplicate(&self) -> (r: PrivateMessage)
        ensures
            r@ == self@,
    {
        PrivateMessage {
            id: self.id,
            sender_id: self.sender_id.duplicate(),
            recipient_id: self.recipient_id.duplicate(),
            content: self.content.clone(),
            media_hashes: clone_strings(&self.media_hashes),
            created_at: self.created_at,
            read_at: self.read_at,
        }
    }
}

} // verus!

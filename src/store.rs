use vstd::prelude::*;
use crate::crypto::PeerIdentity;
use crate::social::{
    clone_strings,
    ChatMessage, ChatMessageView, ChatRoom, ChatRoomView, Friendship, FriendshipStatus,
    FriendshipView, Post, PostView, PostVisibility, PrivateMessage, PrivateMessageView, User,
    UserView,
};
use crate::text::str_eq;
use crate::visibility::{
    can_view, friendship_key, lemma_pair_key_symmetric, pair_key, visible_to,
};

verus! {

/// Position of `k` in `keys`, or -1 when it is absent.
pub open spec fn index_of<K>(keys: Seq<K>, k: K) -> int {
    if keys.contains(k) {
        choose|i: int| 0 <= i < keys.len() && keys[i] == k
    } else {
        -1
    }
}

/// The value stored under `k`, for parallel sequences of keys and values.
pub open spec fn lookup<K, V>(keys: Seq<K>, vals: Seq<V>, k: K) -> Option<V> {
    if keys.contains(k) {
        Some(vals[index_of(keys, k)])
    } else {
        None
    }
}

/// Insert-or-replace: the value takes the place of the one stored under its
/// key, or is appended when the key is new.
pub open spec fn upsert<K, V>(keys: Seq<K>, vals: Seq<V>, k: K, v: V) -> Seq<V> {
    if keys.contains(k) {
        vals.update(index_of(keys, k), v)
    } else {
        vals.push(v)
    }
}

pub proof fn lemma_index_of_unique<K>(keys: Seq<K>, k: K, i: int)
    requires
        keys.no_duplicates(),
        0 <= i < keys.len(),
        keys[i] == k,
    ensures
        index_of(keys, k) == i,
{
    assert(keys.contains(k));
}

/// The first `limit` items of `s`, or all of them when there are fewer.
pub open spec fn first_n<A>(s: Seq<A>, limit: int) -> Seq<A> {
    if limit < s.len() {
        s.take(limit)
    } else {
        s
    }
}

/// Posts written by `a`.
pub open spec fn authored_by(a: Seq<char>) -> spec_fn(PostView) -> bool {
    |p: PostView| p.author_id == a
}

/// Posts that `viewer` may see.
pub open spec fn visible_for(viewer: Seq<char>) -> spec_fn(PostView) -> bool {
    |p: PostView| visible_to(viewer, p)
}

/// Entries other than `peer`.
pub open spec fn not_equal_to(peer: Seq<char>) -> spec_fn(Seq<char>) -> bool {
    |x: Seq<char>| x != peer
}

/// The like list after `peer` toggles its like: removed when present,
/// appended when absent.
pub open spec fn toggled(likes: Seq<Seq<char>>, peer: Seq<char>) -> Seq<Seq<char>> {
    if likes.contains(peer) {
        likes.filter(not_equal_to(peer))
    } else {
        likes.push(peer)
    }
}

/// Rooms that have `peer` among their members.
pub open spec fn has_member(peer: Seq<char>) -> spec_fn(ChatRoomView) -> bool {
    |x: ChatRoomView| x.members.contains(peer)
}

/// Messages of the room `room_id`.
pub open spec fn in_room(room_id: u128) -> spec_fn(ChatMessageView) -> bool {
    |m: ChatMessageView| m.room_id == room_id
}

/// The member list after `peer` joins: unchanged when it is a member.
pub open spec fn with_member(members: Seq<Seq<char>>, peer: Seq<char>) -> Seq<Seq<char>> {
    if members.contains(peer) {
        members
    } else {
        members.push(peer)
    }
}

/// The member list after `peer` leaves.
pub open spec fn without_member(members: Seq<Seq<char>>, peer: Seq<char>) -> Seq<Seq<char>> {
    members.filter(not_equal_to(peer))
}

/// Private messages that `peer` sent or received.
pub open spec fn involves(peer: Seq<char>) -> spec_fn(PrivateMessageView) -> bool {
    |m: PrivateMessageView| m.sender_id == peer || m.recipient_id == peer
}

/// The peers that have an accepted friendship with `id`, one entry per
/// friendship record, in record order.
pub open spec fn friends_of(s: Seq<FriendshipView>, id: Seq<char>) -> Seq<Seq<char>>
    decreases s.len(),
{
    if s.len() == 0 {
        Seq::empty()
    } else {
        let rest = friends_of(s.drop_last(), id);
        let f = s.last();
        if f.status == FriendshipStatus::Accepted && f.requester_id == id {
            rest.push(f.addressee_id)
        } else if f.status == FriendshipStatus::Accepted && f.addressee_id == id {
            rest.push(f.requester_id)
        } else {
            rest
        }
    }
}

/// What accepting the pair `a`, `b` does to the friendship records: the
/// record under the pair's key, if any, becomes accepted with the same
/// parties and creation time and an update time that has not moved back;
/// every other record stays. `r` tells whether the record was there.
pub open spec fn accept_step(
    keys: Seq<Seq<char>>,
    before: Seq<FriendshipView>,
    after: Seq<FriendshipView>,
    a: Seq<char>,
    b: Seq<char>,
    r: bool,
) -> bool {
    &&& r == keys.contains(pair_key(a, b))
    &&& if r {
        let i = index_of(keys, pair_key(a, b));
        let f = before[i];
        let nf = after[i];
        &&& after.len() == before.len()
        &&& forall|j: int| 0 <= j < before.len() && j != i ==> after[j] == before[j]
        &&& nf.status == FriendshipStatus::Accepted
        &&& nf.requester_id == f.requester_id
        &&& nf.addressee_id == f.addressee_id
        &&& nf.created_at == f.created_at
        &&& nf.updated_at >= f.updated_at
    } else {
        after == before
    }
}

pub open spec fn user_views(s: Seq<User>) -> Seq<UserView> {
    s.map_values(|u: User| u@)
}

pub open spec fn post_views(s: Seq<Post>) -> Seq<PostView> {
    s.map_values(|p: Post| p@)
}

pub open spec fn room_views(s: Seq<ChatRoom>) -> Seq<ChatRoomView> {
    s.map_values(|r: ChatRoom| r@)
}

pub open spec fn message_views(s: Seq<ChatMessage>) -> Seq<ChatMessageView> {
    s.map_values(|m: ChatMessage| m@)
}

pub open spec fn friendship_views(s: Seq<Friendship>) -> Seq<FriendshipView> {
    s.map_values(|f: Friendship| f@)
}

pub open spec fn private_message_views(s: Seq<PrivateMessage>) -> Seq<PrivateMessageView> {
    s.map_values(|m: PrivateMessage| m@)
}

/// The in-memory store of users, posts, rooms, room messages, friendships
/// and private messages. Each collection keeps insertion order and holds at
/// most one record per identifier.
pub struct SocialStore {
    users: Vec<User>,
    posts: Vec<Post>,
    rooms: Vec<ChatRoom>,
    messages: Vec<ChatMessage>,
    friendships: Vec<Friendship>,
    private_messages: Vec<PrivateMessage>,
}

impl SocialStore {
    pub closed spec fn users(&self) -> Seq<UserView> {
        user_views(self.users@)
    }

    pub closed spec fn posts(&self) -> Seq<PostView> {
        post_views(self.posts@)
    }

    pub closed spec fn rooms(&self) -> Seq<ChatRoomView> {
        room_views(self.rooms@)
    }

    pub closed spec fn messages(&self) -> Seq<ChatMessageView> {
        message_views(self.messages@)
    }

    pub closed spec fn friendships(&self) -> Seq<FriendshipView> {
        friendship_views(self.friendships@)
    }

    pub closed spec fn private_messages(&self) -> Seq<PrivateMessageView> {
        private_message_views(self.private_messages@)
    }

    pub open spec fn user_ids(&self) -> Seq<Seq<char>> {
        self.users().map_values(|u: UserView| u.id)
    }

    pub open spec fn post_ids(&self) -> Seq<u128> {
        self.posts().map_values(|p: PostView| p.id)
    }

    pub open spec fn room_ids(&self) -> Seq<u128> {
        self.rooms().map_values(|r: ChatRoomView| r.id)
    }

    pub open spec fn message_ids(&self) -> Seq<u128> {
        self.messages().map_values(|m: ChatMessageView| m.id)
    }

    pub open spec fn friendship_keys(&self) -> Seq<Seq<char>> {
        keys_of(self.friendships())
    }

    pub open spec fn private_message_ids(&self) -> Seq<u128> {
        self.private_messages().map_values(|m: PrivateMessageView| m.id)
    }

    /// Each collection holds at most one record per key.
    pub open spec fn wf(&self) -> bool {
        &&& self.user_ids().no_duplicates()
        &&& self.post_ids().no_duplicates()
        &&& self.room_ids().no_duplicates()
        &&& self.message_ids().no_duplicates()
        &&& self.friendship_keys().no_duplicates()
        &&& self.private_message_ids().no_duplicates()
        &&& forall|i: int| 0 <= i < self.posts().len() ==> #[trigger] self.posts()[i].likes.no_duplicates()
        &&& forall|i: int|
            0 <= i < self.rooms().len() ==> #[trigger] self.rooms()[i].members.no_duplicates()
    }

    pub open spec fn user(&self, id: Seq<char>) -> Option<UserView> {
        lookup(self.user_ids(), self.users(), id)
    }

    pub open spec fn post(&self, id: u128) -> Option<PostView> {
        lookup(self.post_ids(), self.posts(), id)
    }

    pub open spec fn room(&self, id: u128) -> Option<ChatRoomView> {
        lookup(self.room_ids(), self.rooms(), id)
    }

    pub open spec fn friendship(&self, a: Seq<char>, b: Seq<char>) -> Option<FriendshipView> {
        lookup(self.friendship_keys(), self.friendships(), pair_key(a, b))
    }

    pub fn new() -> (r: SocialStore)
        ensures
            r.wf(),
            r.users().len() == 0,
            r.posts().len() == 0,
            r.rooms().len() == 0,
            r.messages().len() == 0,
            r.friendships().len() == 0,
            r.private_messages().len() == 0,
    {
        let r = SocialStore {
            users: Vec::new(),
            posts: Vec::new(),
            rooms: Vec::new(),
            messages: Vec::new(),
            friendships: Vec::new(),
            private_messages: Vec::new(),
        };
        assert(r.user_ids() =~= Seq::empty());
        assert(r.post_ids() =~= Seq::empty());
        assert(r.room_ids() =~= Seq::empty());
        assert(r.message_ids() =~= Seq::empty());
        assert(r.friendship_keys() =~= Seq::empty());
        assert(r.private_message_ids() =~= Seq::empty());
        r
    }

    fn find_user(&self, id: &str) -> (r: Option<usize>)
        requires
            self.wf(),
        ensures
            match r {
                Some(i) => i < self.users@.len() && index_of(self.user_ids(), id@) == i
                    && self.user_ids().contains(id@),
                None => !self.user_ids().contains(id@),
            },
    {
        let mut i: usize = 0;
        while i < self.users.len()
            invariant
                self.wf(),
                i <= self.users@.len(),
                forall|j: int| 0 <= j < i ==> self.user_ids()[j] != id@,
            decreases self.users@.len() - i,
        {
            assert(self.user_ids()[i as int] == self.users@[i as int].id@);
            if str_eq(self.users[i].id.as_str(), id) {
                proof {
                    lemma_index_of_unique(self.user_ids(), id@, i as int);
                }
                return Some(i);
            }
            i = i + 1;
        }
        None
    }

    /// Inserts the user, replacing the one with the same identifier.
    pub fn add_user(&mut self, user: User)
        requires
            old(self).wf(),
        ensures
            final(self).wf(),
            final(self).users() == upsert(old(self).user_ids(), old(self).users(), user@.id, user@),
            final(self).posts() == old(self).posts(),
            final(self).rooms() == old(self).rooms(),
            final(self).messages() == old(self).messages(),
            final(self).friendships() == old(self).friendships(),
            final(self).private_messages() == old(self).private_messages(),
    {
        let found = self.find_user(user.id.as_str());
        let ghost uv = user@;
        match found {
            Some(i) => {
                self.users.set(i, user);
                assert(self.users() =~= old(self).users().update(i as int, uv));
                assert(self.user_ids() =~= old(self).user_ids());
            },
            None => {
                self.users.push(user);
                assert(self.users() =~= old(self).users().push(uv));
                assert(self.user_ids() =~= old(self).user_ids().push(uv.id));
            },
        }
    }

    /// The user with the given identifier, if any.
    pub fn get_user(&self, id: &str) -> (r: Option<User>)
        requires
            self.wf(),
        ensures
            r.is_some() == self.user_ids().contains(id@),
            r matches Some(u) ==> Some(u@) == self.user(id@),
    {
        match self.find_user(id) {
            Some(i) => Some(self.users[i].duplicate()),
            None => None,
        }
    }

    fn find_post(&self, id: u128) -> (r: Option<usize>)
        requires
            self.wf(),
        ensures
            match r {
                Some(i) => i < self.posts@.len() && index_of(self.post_ids(), id) == i
                    && self.post_ids().contains(id),
                None => !self.post_ids().contains(id),
            },
    {
        let mut i: usize = 0;
        while i < self.posts.len()
            invariant
                self.wf(),
                i <= self.posts@.len(),
                forall|j: int| 0 <= j < i ==> self.post_ids()[j] != id,
            decreases self.posts@.len() - i,
        {
            assert(self.post_ids()[i as int] == self.posts@[i as int].id);
            if self.posts[i].id == id {
                proof {
                    lemma_index_of_unique(self.post_ids(), id, i as int);
                }
                return Some(i);
            }
            i = i + 1;
        }
        None
    }

    /// Inserts the post, replacing the one with the same identifier.
    pub fn add_post(&mut self, post: Post)
        requires
            old(self).wf(),
            post@.likes.no_duplicates(),
        ensures
            final(self).wf(),
            final(self).posts() == upsert(old(self).post_ids(), old(self).posts(), post@.id, post@),
            final(self).users() == old(self).users(),
            final(self).rooms() == old(self).rooms(),
            final(self).messages() == old(self).messages(),
            final(self).friendships() == old(self).friendships(),
            final(self).private_messages() == old(self).private_messages(),
    {
        let found = self.find_post(post.id);
        let ghost pv = post@;
        match found {
            Some(i) => {
                self.posts.set(i, post);
                assert(self.posts() =~= old(self).posts().update(i as int, pv));
                assert(self.post_ids() =~= old(self).post_ids());
            },
            None => {
                self.posts.push(post);
                assert(self.posts() =~= old(self).posts().push(pv));
                assert(self.post_ids() =~= old(self).post_ids().push(pv.id));
            },
        }
    }

    /// The post with the given identifier, if any.
    pub fn get_post(&self, id: u128) -> (r: Option<Post>)
        requires
            self.wf(),
        ensures
            r.is_some() == self.post_ids().contains(id),
            r matches Some(p) ==> Some(p@) == self.post(id),
    {
        match self.find_post(id) {
            Some(i) => Some(self.posts[i].duplicate()),
            None => None,
        }
    }

    /// The posts written by `author_id`, in insertion order.
    pub fn get_posts_by_author(&self, author_id: &PeerIdentity) -> (r: Vec<Post>)
        ensures
            post_views(r@) == self.posts().filter(authored_by(author_id@)),
    {
        let mut out: Vec<Post> = Vec::new();
        let mut i: usize = 0;
        while i < self.posts.len()
            invariant
                i <= self.posts@.len(),
                post_views(out@) == self.posts().subrange(0, i as int).filter(
                    authored_by(author_id@),
                ),
            decreases self.posts@.len() - i,
        {
            proof {
                reveal(Seq::filter);
                assert(self.posts().subrange(0, i + 1).drop_last() =~= self.posts().subrange(
                    0,
                    i as int,
                ));
            }
            if self.posts[i].author_id == *author_id {
                let p = self.posts[i].duplicate();
                let ghost before = out@;
                out.push(p);
                assert(post_views(out@) =~= post_views(before).push(p@));
            }
            i = i + 1;
        }
        assert(self.posts().subrange(0, self.posts@.len() as int) =~= self.posts());
        out
    }

    /// The posts that `viewer` may see, in insertion order: the whole
    /// collection is filtered first, then cut to `limit`.
    pub fn visible_posts(&self, viewer: &PeerIdentity, limit: usize) -> (r: Vec<Post>)
        ensures
            post_views(r@) == first_n(self.posts().filter(visible_for(viewer@)), limit as int),
    {
        let mut out: Vec<Post> = Vec::new();
        let mut i: usize = 0;
        while i < self.posts.len()
            invariant
                i <= self.posts@.len(),
                post_views(out@) == self.posts().subrange(0, i as int).filter(
                    visible_for(viewer@),
                ),
            decreases self.posts@.len() - i,
        {
            proof {
                reveal(Seq::filter);
                assert(self.posts().subrange(0, i + 1).drop_last() =~= self.posts().subrange(
                    0,
                    i as int,
                ));
            }
            if can_view(viewer, &self.posts[i]) {
                let p = self.posts[i].duplicate();
                let ghost before = out@;
                out.push(p);
                assert(post_views(out@) =~= post_views(before).push(p@));
            }
            i = i + 1;
        }
        assert(self.posts().subrange(0, self.posts@.len() as int) =~= self.posts());
        let ghost all = out@;
        out.truncate(limit);
        assert(post_views(out@) =~= first_n(post_views(all), limit as int));
        out
    }

    /// Toggles the like of `peer` on the post: removed when present, added
    /// when absent. Returns the updated post, or `None` when there is no
    /// such post (and nothing changes).
    pub fn toggle_like(&mut self, post_id: u128, peer: &String) -> (r: Option<Post>)
        requires
            old(self).wf(),
        ensures
            final(self).wf(),
            r.is_some() == old(self).post_ids().contains(post_id),
            match old(self).post(post_id) {
                Some(p) => {
                    let np = PostView { likes: toggled(p.likes, peer@), ..p };
                    &&& final(self).posts() == old(self).posts().update(
                        index_of(old(self).post_ids(), post_id),
                        np,
                    )
                    &&& r matches Some(q) && q@ == np
                },
                None => final(self).posts() == old(self).posts(),
            },
            final(self).users() == old(self).users(),
            final(self).rooms() == old(self).rooms(),
            final(self).messages() == old(self).messages(),
            final(self).friendships() == old(self).friendships(),
            final(self).private_messages() == old(self).private_messages(),
    {
        match self.find_post(post_id) {
            None => None,
            Some(i) => {
                let ghost old_post = self.posts@[i as int]@;
                let likes = toggle_in(&self.posts[i].likes, peer);
                let mut post = self.posts[i].duplicate();
                post.likes = likes;
                let ghost pv = post@;
                let out = post.duplicate();
                self.posts.set(i, post);
                assert(self.posts() =~= old(self).posts().update(i as int, pv));
                assert(self.post_ids() =~= old(self).post_ids());
                proof {
                    lemma_lists_stay_sets(old(self).posts()[i as int].likes, peer@);
                    assert forall|k: int| 0 <= k < self.posts().len() implies #[trigger] self.posts()[k].likes.no_duplicates() by {
                        if k != i {
                            assert(self.posts()[k] == old(self).posts()[k]);
                        }
                    }
                }
                Some(out)
            },
        }
    }

    fn find_room(&self, id: u128) -> (r: Option<usize>)
        requires
            self.wf(),
        ensures
            match r {
                Some(i) => i < self.rooms@.len() && index_of(self.room_ids(), id) == i
                    && self.room_ids().contains(id),
                None => !self.room_ids().contains(id),
            },
    {
        let mut i: usize = 0;
        while i < self.rooms.len()
            invariant
                self.wf(),
                i <= self.rooms@.len(),
                forall|j: int| 0 <= j < i ==> self.room_ids()[j] != id,
            decreases self.rooms@.len() - i,
        {
            assert(self.room_ids()[i as int] == self.rooms@[i as int].id);
            if self.rooms[i].id == id {
                proof {
                    lemma_index_of_unique(self.room_ids(), id, i as int);
                }
                return Some(i);
            }
            i = i + 1;
        }
        None
    }

    /// Inserts the room, replacing the one with the same identifier.
    pub fn add_room(&mut self, room: ChatRoom)
        requires
            old(self).wf(),
            room@.members.no_duplicates(),
        ensures
            final(self).wf(),
            final(self).rooms() == upsert(old(self).room_ids(), old(self).rooms(), room@.id, room@),
            final(self).users() == old(self).users(),
            final(self).posts() == old(self).posts(),
            final(self).messages() == old(self).messages(),
            final(self).friendships() == old(self).friendships(),
            final(self).private_messages() == old(self).private_messages(),
    {
        let found = self.find_room(room.id);
        let ghost rv = room@;
        match found {
            Some(i) => {
                self.rooms.set(i, room);
                assert(self.rooms() =~= old(self).rooms().update(i as int, rv));
                assert(self.room_ids() =~= old(self).room_ids());
            },
            None => {
                self.rooms.push(room);
                assert(self.rooms() =~= old(self).rooms().push(rv));
                assert(self.room_ids() =~= old(self).room_ids().push(rv.id));
            },
        }
    }

    /// The room with the given identifier, if any.
    pub fn get_room(&self, id: u128) -> (r: Option<ChatRoom>)
        requires
            self.wf(),
        ensures
            r.is_some() == self.room_ids().contains(id),
            r matches Some(x) ==> Some(x@) == self.room(id),
    {
        match self.find_room(id) {
            Some(i) => Some(self.rooms[i].duplicate()),
            None => None,
        }
    }

    /// Whether a room with the given identifier exists.
    pub fn has_room(&self, id: u128) -> (r: bool)
        requires
            self.wf(),
        ensures
            r == self.room_ids().contains(id),
    {
        self.find_room(id).is_some()
    }

    /// Adds `peer` to the room's members unless it is one already. Returns
    /// the updated room, or `None` when there is no such room.
    pub fn join_room(&mut self, room_id: u128, peer: &PeerIdentity) -> (r: Option<ChatRoom>)
        requires
            old(self).wf(),
        ensures
            final(self).wf(),
            r.is_some() == old(self).room_ids().contains(room_id),
            match old(self).room(room_id) {
                Some(x) => {
                    let nx = ChatRoomView { members: with_member(x.members, peer@), ..x };
                    &&& final(self).rooms() == old(self).rooms().update(
                        index_of(old(self).room_ids(), room_id),
                        nx,
                    )
                    &&& r matches Some(y) && y@ == nx
                },
                None => final(self).rooms() == old(self).rooms(),
            },
            final(self).users() == old(self).users(),
            final(self).posts() == old(self).posts(),
            final(self).messages() == old(self).messages(),
            final(self).friendships() == old(self).friendships(),
            final(self).private_messages() == old(self).private_messages(),
    {
        match self.find_room(room_id) {
            None => None,
            Some(i) => {
                let mut room = self.rooms[i].duplicate();
                if !peers_contain(&room.members, peer) {
                    let ghost before = room.members.deep_view();
                    room.members.push(peer.duplicate());
                    assert(room.members.deep_view() =~= before.push(peer@));
                }
                let ghost rv = room@;
                let out = room.duplicate();
                self.rooms.set(i, room);
                assert(self.rooms() =~= old(self).rooms().update(i as int, rv));
                assert(self.room_ids() =~= old(self).room_ids());
                proof {
                    lemma_lists_stay_sets(old(self).rooms()[i as int].members, peer@);
                    assert forall|k: int| 0 <= k < self.rooms().len() implies #[trigger] self.rooms()[k].members.no_duplicates() by {
                        if k != i {
                            assert(self.rooms()[k] == old(self).rooms()[k]);
                        }
                    }
                }
                Some(out)
            },
        }
    }

    /// Removes `peer` from the room's members. Returns the updated room, or
    /// `None` when there is no such room.
    pub fn leave_room(&mut self, room_id: u128, peer: &PeerIdentity) -> (r: Option<ChatRoom>)
        requires
            old(self).wf(),
        ensures
            final(self).wf(),
            r.is_some() == old(self).room_ids().contains(room_id),
            match old(self).room(room_id) {
                Some(x) => {
                    let nx = ChatRoomView { members: without_member(x.members, peer@), ..x };
                    &&& final(self).rooms() == old(self).rooms().update(
                        index_of(old(self).room_ids(), room_id),
                        nx,
                    )
                    &&& r matches Some(y) && y@ == nx
                },
                None => final(self).rooms() == old(self).rooms(),
            },
            final(self).users() == old(self).users(),
            final(self).posts() == old(self).posts(),
            final(self).messages() == old(self).messages(),
            final(self).friendships() == old(self).friendships(),
            final(self).private_messages() == old(self).private_messages(),
    {
        match self.find_room(room_id) {
            None => None,
            Some(i) => {
                let mut room = self.rooms[i].duplicate();
                room.members = peers_without(&room.members, peer);
                let ghost rv = room@;
                let out = room.duplicate();
                self.rooms.set(i, room);
                assert(self.rooms() =~= old(self).rooms().update(i as int, rv));
                assert(self.room_ids() =~= old(self).room_ids());
                proof {
                    lemma_lists_stay_sets(old(self).rooms()[i as int].members, peer@);
                    assert forall|k: int| 0 <= k < self.rooms().len() implies #[trigger] self.rooms()[k].members.no_duplicates() by {
                        if k != i {
                            assert(self.rooms()[k] == old(self).rooms()[k]);
                        }
                    }
                }
                Some(out)
            },
        }
    }

    /// The rooms that have `peer` among their members, in insertion order.
    pub fn rooms_of_member(&self, peer: &PeerIdentity) -> (r: Vec<ChatRoom>)
        ensures
            room_views(r@) == self.rooms().filter(has_member(peer@)),
    {
        let mut out: Vec<ChatRoom> = Vec::new();
        let mut i: usize = 0;
        while i < self.rooms.len()
            invariant
                i <= self.rooms@.len(),
                room_views(out@) == self.rooms().subrange(0, i as int).filter(has_member(peer@)),
            decreases self.rooms@.len() - i,
        {
            proof {
                reveal(Seq::filter);
                assert(self.rooms().subrange(0, i + 1).drop_last() =~= self.rooms().subrange(
                    0,
                    i as int,
                ));
            }
            if peers_contain(&self.rooms[i].members, peer) {
                let x = self.rooms[i].duplicate();
                let ghost before = out@;
                out.push(x);
                assert(room_views(out@) =~= room_views(before).push(x@));
            }
            i = i + 1;
        }
        assert(self.rooms().subrange(0, self.rooms@.len() as int) =~= self.rooms());
        out
    }

    fn find_message(&self, id: u128) -> (r: Option<usize>)
        requires
            self.wf(),
        ensures
            match r {
                Some(i) => i < self.messages@.len() && index_of(self.message_ids(), id) == i
                    && self.message_ids().contains(id),
                None => !self.message_ids().contains(id),
            },
    {
        let mut i: usize = 0;
        while i < self.messages.len()
            invariant
                self.wf(),
                i <= self.messages@.len(),
                forall|j: int| 0 <= j < i ==> self.message_ids()[j] != id,
            decreases self.messages@.len() - i,
        {
            assert(self.message_ids()[i as int] == self.messages@[i as int].id);
            if self.messages[i].id == id {
                proof {
                    lemma_index_of_unique(self.message_ids(), id, i as int);
                }
                return Some(i);
            }
            i = i + 1;
        }
        None
    }

    /// Inserts the room message, replacing the one with the same identifier.
    pub fn add_message(&mut self, msg: ChatMessage)
        requires
            old(self).wf(),
        ensures
            final(self).wf(),
            final(self).messages() == upsert(
                old(self).message_ids(),
                old(self).messages(),
                msg@.id,
                msg@,
            ),
            final(self).users() == old(self).users(),
            final(self).posts() == old(self).posts(),
            final(self).rooms() == old(self).rooms(),
            final(self).friendships() == old(self).friendships(),
            final(self).private_messages() == old(self).private_messages(),
    {
        let found = self.find_message(msg.id);
        let ghost mv = msg@;
        match found {
            Some(i) => {
                self.messages.set(i, msg);
                assert(self.messages() =~= old(self).messages().update(i as int, mv));
                assert(self.message_ids() =~= old(self).message_ids());
            },
            None => {
                self.messages.push(msg);
                assert(self.messages() =~= old(self).messages().push(mv));
                assert(self.message_ids() =~= old(self).message_ids().push(mv.id));
            },
        }
    }

    /// The messages of the room, in insertion order.
    pub fn get_room_messages(&self, room_id: u128) -> (r: Vec<ChatMessage>)
        ensures
            message_views(r@) == self.messages().filter(in_room(room_id)),
    {
        let mut out: Vec<ChatMessage> = Vec::new();
        let mut i: usize = 0;
        while i < self.messages.len()
            invariant
                i <= self.messages@.len(),
                message_views(out@) == self.messages().subrange(0, i as int).filter(
                    in_room(room_id),
                ),
            decreases self.messages@.len() - i,
        {
            proof {
                reveal(Seq::filter);
                assert(self.messages().subrange(0, i + 1).drop_last() =~= self.messages().subrange(
                    0,
                    i as int,
                ));
            }
            if self.messages[i].room_id == room_id {
                let m = self.messages[i].duplicate();
                let ghost before = out@;
                out.push(m);
                assert(message_views(out@) =~= message_views(before).push(m@));
            }
            i = i + 1;
        }
        assert(self.messages().subrange(0, self.messages@.len() as int) =~= self.messages());
        out
    }


    /// Sets the display name and the bio of the user `id` where a new value
    /// is given, and moves its update time forward. Returns the updated
    /// user, or `None` when there is no such user (and nothing changes).
    pub fn update_user(
        &mut self,
        id: &PeerIdentity,
        display_name: Option<String>,
        bio: Option<String>,
    ) -> (r: Option<User>)
        requires
            old(self).wf(),
        ensures
            final(self).wf(),
            r.is_some() == old(self).user_ids().contains(id@),
            match old(self).user(id@) {
                Some(u) => {
                    let i = index_of(old(self).user_ids(), id@);
                    let nu = final(self).users()[i];
                    &&& final(self).users().len() == old(self).users().len()
                    &&& forall|j: int|
                        0 <= j < old(self).users().len() && j != i ==> final(self).users()[j]
                            == old(self).users()[j]
                    &&& nu.id == u.id
                    &&& nu.username == u.username
                    &&& nu.display_name == (match display_name {
                        Some(d) => d@,
                        None => u.display_name,
                    })
                    &&& nu.bio == (match bio {
                        Some(b) => Some(b@),
                        None => u.bio,
                    })
                    &&& nu.avatar_hash == u.avatar_hash
                    &&& nu.gns_zone == u.gns_zone
                    &&& nu.created_at == u.created_at
                    &&& nu.updated_at >= u.updated_at
                    &&& nu.updated_at >= u.created_at
                    &&& r matches Some(x) && x@ == nu
                },
                None => final(self).users() == old(self).users(),
            },
            final(self).posts() == old(self).posts(),
            final(self).rooms() == old(self).rooms(),
            final(self).messages() == old(self).messages(),
            final(self).friendships() == old(self).friendships(),
            final(self).private_messages() == old(self).private_messages(),
    {
        match self.find_user(id.as_str()) {
            None => None,
            Some(i) => {
                let mut user = self.users[i].duplicate();
                if let Some(d) = display_name {
                    user.display_name = d;
                }
                if let Some(b) = bio {
                    user.bio = Some(b);
                }
                let now = crate::platform::now_millis();
                let mut t = user.updated_at;
                if t < user.created_at {
                    t = user.created_at;
                }
                if now > t {
                    t = now;
                }
                user.updated_at = t;
                let ghost uv = user@;
                let out = user.duplicate();
                self.users.set(i, user);
                assert(self.users() =~= old(self).users().update(i as int, uv));
                assert(self.user_ids() =~= old(self).user_ids());
                Some(out)
            },
        }
    }

    fn find_friendship(&self, key: &String) -> (r: Option<usize>)
        requires
            self.wf(),
        ensures
            match r {
                Some(i) => i < self.friendships@.len() && index_of(self.friendship_keys(), key@)
                    == i && self.friendship_keys().contains(key@),
                None => !self.friendship_keys().contains(key@),
            },
    {
        let mut i: usize = 0;
        while i < self.friendships.len()
            invariant
                self.wf(),
                i <= self.friendships@.len(),
                forall|j: int| 0 <= j < i ==> self.friendship_keys()[j] != key@,
            decreases self.friendships@.len() - i,
        {
            let k = friendship_key(&self.friendships[i].requester_id, &self.friendships[i].addressee_id);
            assert(self.friendship_keys()[i as int] == k@);
            if k == *key {
                proof {
                    lemma_index_of_unique(self.friendship_keys(), key@, i as int);
                }
                return Some(i);
            }
            i = i + 1;
        }
        None
    }

    /// Records the friendship under the symmetric key of its pair, replacing
    /// any earlier record of the same pair.
    pub fn request_friendship(&mut self, friendship: Friendship)
        requires
            old(self).wf(),
        ensures
            final(self).wf(),
            final(self).friendships() == upsert(
                old(self).friendship_keys(),
                old(self).friendships(),
                pair_key(friendship@.requester_id, friendship@.addressee_id),
                friendship@,
            ),
            final(self).users() == old(self).users(),
            final(self).posts() == old(self).posts(),
            final(self).rooms() == old(self).rooms(),
            final(self).messages() == old(self).messages(),
            final(self).private_messages() == old(self).private_messages(),
    {
        let key = friendship_key(&friendship.requester_id, &friendship.addressee_id);
        let found = self.find_friendship(&key);
        let ghost fv = friendship@;
        match found {
            Some(i) => {
                self.friendships.set(i, friendship);
                assert(self.friendships() =~= old(self).friendships().update(i as int, fv));
                assert(self.friendship_keys() =~= old(self).friendship_keys());
            },
            None => {
                self.friendships.push(friendship);
                assert(self.friendships() =~= old(self).friendships().push(fv));
                assert(self.friendship_keys() =~= old(self).friendship_keys().push(key@));
            },
        }
    }

    /// The friendship of the pair, in either order.
    pub fn get_friendship(&self, a: &PeerIdentity, b: &PeerIdentity) -> (r: Option<Friendship>)
        requires
            self.wf(),
        ensures
            r.is_some() == self.friendship_keys().contains(pair_key(a@, b@)),
            r matches Some(f) ==> Some(f@) == self.friendship(a@, b@),
    {
        let key = friendship_key(a, b);
        match self.find_friendship(&key) {
            Some(i) => Some(self.friendships[i].duplicate()),
            None => None,
        }
    }

    /// Marks the friendship of the pair accepted, in either order. Returns
    /// false when the pair has no friendship (and nothing changes).
    pub fn accept_friendship(&mut self, a: &PeerIdentity, b: &PeerIdentity) -> (r: bool)
        requires
            old(self).wf(),
        ensures
            final(self).wf(),
            accept_step(old(self).friendship_keys(), old(self).friendships(), final(self).friendships(), a@, b@, r),
            final(self).users() == old(self).users(),
            final(self).posts() == old(self).posts(),
            final(self).rooms() == old(self).rooms(),
            final(self).messages() == old(self).messages(),
            final(self).private_messages() == old(self).private_messages(),
    {
        let key = friendship_key(a, b);
        match self.find_friendship(&key) {
            None => false,
            Some(i) => {
                let mut f = self.friendships[i].duplicate();
                f.accept();
                let ghost fv = f@;
                self.friendships.set(i, f);
                assert(self.friendships() =~= old(self).friendships().update(i as int, fv));
                assert(self.friendship_keys() =~= old(self).friendship_keys());
                true
            },
        }
    }

    /// The peers that have an accepted friendship with `id`, in the order of
    /// the friendship records.
    pub fn get_friends(&self, id: &PeerIdentity) -> (r: Vec<PeerIdentity>)
        ensures
            r.deep_view() == friends_of(self.friendships(), id@),
    {
        let mut out: Vec<PeerIdentity> = Vec::new();
        let mut i: usize = 0;
        while i < self.friendships.len()
            invariant
                i <= self.friendships@.len(),
                out.deep_view() == friends_of(self.friendships().subrange(0, i as int), id@),
            decreases self.friendships@.len() - i,
        {
            assert(self.friendships().subrange(0, i + 1).drop_last() =~= self.friendships().subrange(
                0,
                i as int,
            ));
            let f = &self.friendships[i];
            let ghost before = out.deep_view();
            if f.status == FriendshipStatus::Accepted {
                if f.requester_id == *id {
                    out.push(f.addressee_id.duplicate());
                    assert(out.deep_view() =~= before.push(f.addressee_id@));
                } else if f.addressee_id == *id {
                    out.push(f.requester_id.duplicate());
                    assert(out.deep_view() =~= before.push(f.requester_id@));
                }
            }
            i = i + 1;
        }
        assert(self.friendships().subrange(0, self.friendships@.len() as int) =~= self.friendships());
        out
    }

    fn find_private_message(&self, id: u128) -> (r: Option<usize>)
        requires
            self.wf(),
        ensures
            match r {
                Some(i) => i < self.private_messages@.len() && index_of(
                    self.private_message_ids(),
                    id,
                ) == i && self.private_message_ids().contains(id),
                None => !self.private_message_ids().contains(id),
            },
    {
        let mut i: usize = 0;
        while i < self.private_messages.len()
            invariant
                self.wf(),
                i <= self.private_messages@.len(),
                forall|j: int| 0 <= j < i ==> self.private_message_ids()[j] != id,
            decreases self.private_messages@.len() - i,
        {
            assert(self.private_message_ids()[i as int] == self.private_messages@[i as int].id);
            if self.private_messages[i].id == id {
                proof {
                    lemma_index_of_unique(self.private_message_ids(), id, i as int);
                }
                return Some(i);
            }
            i = i + 1;
        }
        None
    }

    /// Inserts the private message, replacing the one with the same
    /// identifier.
    pub fn add_private_message(&mut self, msg: PrivateMessage)
        requires
            old(self).wf(),
        ensures
            final(self).wf(),
            final(self).private_messages() == upsert(
                old(self).private_message_ids(),
                old(self).private_messages(),
                msg@.id,
                msg@,
            ),
            final(self).users() == old(self).users(),
            final(self).posts() == old(self).posts(),
            final(self).rooms() == old(self).rooms(),
            final(self).messages() == old(self).messages(),
            final(self).friendships() == old(self).friendships(),
    {
        let found = self.find_private_message(msg.id);
        let ghost mv = msg@;
        match found {
            Some(i) => {
                self.private_messages.set(i, msg);
                assert(self.private_messages() =~= old(self).private_messages().update(i as int, mv));
                assert(self.private_message_ids() =~= old(self).private_message_ids());
            },
            None => {
                self.private_messages.push(msg);
                assert(self.private_messages() =~= old(self).private_messages().push(mv));
                assert(self.private_message_ids() =~= old(self).private_message_ids().push(mv.id));
            },
        }
    }

    /// The private messages that `id` sent or received, in insertion order.
    pub fn get_private_messages(&self, id: &PeerIdentity) -> (r: Vec<PrivateMessage>)
        ensures
            private_message_views(r@) == self.private_messages().filter(involves(id@)),
    {
        keep_involving(&self.private_messages, id)
    }

}

impl Default for SocialStore {
    fn default() -> (r: SocialStore)
        ensures
            r.wf(),
            r.users().len() == 0,
            r.posts().len() == 0,
            r.rooms().len() == 0,
            r.messages().len() == 0,
            r.friendships().len() == 0,
            r.private_messages().len() == 0,
    {
        SocialStore::new()
    }
}

/// The like list after `peer` toggles its like.
fn toggle_in(likes: &Vec<String>, peer: &String) -> (r: Vec<String>)
    ensures
        r.deep_view() == toggled(likes.deep_view(), peer@),
{
    let mut present = false;
    let mut kept: Vec<String> = Vec::new();
    let mut i: usize = 0;
    while i < likes.len()
        invariant
            i <= likes@.len(),
            present == likes.deep_view().subrange(0, i as int).contains(peer@),
            kept.deep_view() == likes.deep_view().subrange(0, i as int).filter(
                not_equal_to(peer@),
            ),
        decreases likes@.len() - i,
    {
        let ghost pre = likes.deep_view().subrange(0, i as int);
        let ghost next = likes.deep_view().subrange(0, i + 1);
        proof {
            reveal(Seq::filter);
            assert(next.drop_last() =~= pre);
            assert(next =~= pre.push(likes@[i as int]@));
            assert(next.contains(peer@) == (pre.contains(peer@) || likes@[i as int]@ == peer@)) by {
                if next.contains(peer@) {
                    let k = choose|k: int| 0 <= k < next.len() && next[k] == peer@;
                    if k < pre.len() {
                        assert(pre[k] == peer@);
                    }
                }
                if pre.contains(peer@) {
                    let k = choose|k: int| 0 <= k < pre.len() && pre[k] == peer@;
                    assert(next[k] == peer@);
                }
                if likes@[i as int]@ == peer@ {
                    assert(next[i as int] == peer@);
                }
            }
        }
        if likes[i] == *peer {
            present = true;
        } else {
            let ghost before = kept.deep_view();
            kept.push(likes[i].clone());
            assert(kept.deep_view() =~= before.push(likes@[i as int]@));
        }
        i = i + 1;
    }
    assert(likes.deep_view().subrange(0, likes@.len() as int) =~= likes.deep_view());
    if present {
        kept
    } else {
        let mut all = clone_strings(likes);
        let ghost before = all.deep_view();
        all.push(peer.clone());
        assert(all.deep_view() =~= before.push(peer@));
        all
    }
}

/// Whether `peer` is in the list.
fn peers_contain(v: &Vec<PeerIdentity>, peer: &PeerIdentity) -> (r: bool)
    ensures
        r == v.deep_view().contains(peer@),
{
    let mut i: usize = 0;
    while i < v.len()
        invariant
            i <= v@.len(),
            forall|j: int| 0 <= j < i ==> v@[j]@ != peer@,
        decreases v@.len() - i,
    {
        if v[i] == *peer {
            assert(v.deep_view()[i as int] == peer@);
            return true;
        }
        i = i + 1;
    }
    assert(!v.deep_view().contains(peer@)) by {
        if v.deep_view().contains(peer@) {
            let k = choose|k: int| 0 <= k < v.deep_view().len() && v.deep_view()[k] == peer@;
            assert(v@[k]@ == peer@);
        }
    }
    false
}

/// The list without any entry equal to `peer`, in the same order.
fn peers_without(v: &Vec<PeerIdentity>, peer: &PeerIdentity) -> (r: Vec<PeerIdentity>)
    ensures
        r.deep_view() == without_member(v.deep_view(), peer@),
{
    let mut kept: Vec<PeerIdentity> = Vec::new();
    let mut i: usize = 0;
    while i < v.len()
        invariant
            i <= v@.len(),
            kept.deep_view() == v.deep_view().subrange(0, i as int).filter(
                not_equal_to(peer@),
            ),
        decreases v@.len() - i,
    {
        proof {
            reveal(Seq::filter);
            assert(v.deep_view().subrange(0, i + 1).drop_last() =~= v.deep_view().subrange(
                0,
                i as int,
            ));
        }
        if v[i] != *peer {
            let ghost before = kept.deep_view();
            kept.push(v[i].duplicate());
            assert(kept.deep_view() =~= before.push(v@[i as int]@));
        }
        i = i + 1;
    }
    assert(v.deep_view().subrange(0, v@.len() as int) =~= v.deep_view());
    kept
}

/// The messages of `v` that `peer` sent or received, in the same order.
pub fn keep_involving(v: &Vec<PrivateMessage>, peer: &PeerIdentity) -> (r: Vec<PrivateMessage>)
    ensures
        private_message_views(r@) == private_message_views(v@).filter(involves(peer@)),
{
    let mut out: Vec<PrivateMessage> = Vec::new();
    let mut i: usize = 0;
    while i < v.len()
        invariant
            i <= v@.len(),
            private_message_views(out@) == private_message_views(v@).subrange(0, i as int).filter(
                involves(peer@),
            ),
        decreases v@.len() - i,
    {
        proof {
            reveal(Seq::filter);
            assert(private_message_views(v@).subrange(0, i + 1).drop_last()
                =~= private_message_views(v@).subrange(0, i as int));
        }
        if v[i].sender_id == *peer || v[i].recipient_id == *peer {
            let m = v[i].duplicate();
            let ghost before = out@;
            out.push(m);
            assert(private_message_views(out@) =~= private_message_views(before).push(m@));
        }
        i = i + 1;
    }
    assert(private_message_views(v@).subrange(0, v@.len() as int) =~= private_message_views(v@));
    out
}

/// The keys of a sequence of friendship records.
pub open spec fn keys_of(s: Seq<FriendshipView>) -> Seq<Seq<char>> {
    s.map_values(|f: FriendshipView| pair_key(f.requester_id, f.addressee_id))
}

proof fn lemma_friends_of_has(s: Seq<FriendshipView>, id: Seq<char>, j: int)
    requires
        0 <= j < s.len(),
        s[j].status == FriendshipStatus::Accepted,
        s[j].requester_id == id || s[j].addressee_id == id,
    ensures
        friends_of(s, id).contains(
            if s[j].requester_id == id {
                s[j].addressee_id
            } else {
                s[j].requester_id
            },
        ),
    decreases s.len(),
{
    let rest = friends_of(s.drop_last(), id);
    if j == s.len() - 1 {
        assert(friends_of(s, id).last() == (if s[j].requester_id == id {
            s[j].addressee_id
        } else {
            s[j].requester_id
        }));
    } else {
        lemma_friends_of_has(s.drop_last(), id, j);
        let w = if s[j].requester_id == id {
            s[j].addressee_id
        } else {
            s[j].requester_id
        };
        let k = choose|k: int| 0 <= k < rest.len() && rest[k] == w;
        assert(friends_of(s, id)[k] == w);
    }
}

/// A request from `f.requester_id` to `f.addressee_id`, followed by the
/// addressee accepting the pair, makes each of the two a friend of the
/// other.
pub proof fn lemma_request_then_accept(
    s0: Seq<FriendshipView>,
    s1: Seq<FriendshipView>,
    s2: Seq<FriendshipView>,
    f: FriendshipView,
    accepted: bool,
)
    requires
        keys_of(s0).no_duplicates(),
        keys_of(s1).no_duplicates(),
        s1 == upsert(keys_of(s0), s0, pair_key(f.requester_id, f.addressee_id), f),
        accept_step(keys_of(s1), s1, s2, f.addressee_id, f.requester_id, accepted),
    ensures
        accepted,
        friends_of(s2, f.requester_id).contains(f.addressee_id),
        friends_of(s2, f.addressee_id).contains(f.requester_id),
{
    let a = f.requester_id;
    let b = f.addressee_id;
    let k = pair_key(a, b);
    lemma_pair_key_symmetric(a, b);
    let i: int = if keys_of(s0).contains(k) {
        index_of(keys_of(s0), k)
    } else {
        s0.len() as int
    };
    assert(s1[i] == f);
    assert(keys_of(s1)[i] == k);
    lemma_index_of_unique(keys_of(s1), k, i);
    assert(s2[i].status == FriendshipStatus::Accepted);
    lemma_friends_of_has(s2, a, i);
    lemma_friends_of_has(s2, b, i);
}

/// Accepting a pair whose record is already accepted succeeds again and
/// leaves the record accepted.
pub proof fn lemma_accept_idempotent(
    s1: Seq<FriendshipView>,
    s2: Seq<FriendshipView>,
    a: Seq<char>,
    b: Seq<char>,
    accepted: bool,
)
    requires
        keys_of(s1).no_duplicates(),
        lookup(keys_of(s1), s1, pair_key(a, b)) matches Some(f) && f.status
            == FriendshipStatus::Accepted,
        accept_step(keys_of(s1), s1, s2, a, b, accepted),
    ensures
        accepted,
        keys_of(s2) == keys_of(s1),
        lookup(keys_of(s2), s2, pair_key(a, b)) matches Some(g) && g.status
            == FriendshipStatus::Accepted,
{
    assert(keys_of(s2) =~= keys_of(s1));
}

/// Liking a post that `peer` has not liked and then toggling again gives
/// back the like list it had.
pub proof fn lemma_like_then_unlike(likes: Seq<Seq<char>>, peer: Seq<char>)
    requires
        !likes.contains(peer),
    ensures
        toggled(toggled(likes, peer), peer) == likes,
{
    let once = likes.push(peer);
    assert(once.contains(peer)) by {
        assert(once[likes.len() as int] == peer);
    }
    reveal(Seq::filter);
    assert(once.drop_last() =~= likes);
    lemma_filter_keeps_all(likes, peer);
}

proof fn lemma_filter_keeps_all(s: Seq<Seq<char>>, peer: Seq<char>)
    requires
        !s.contains(peer),
    ensures
        s.filter(not_equal_to(peer)) == s,
    decreases s.len(),
{
    reveal(Seq::filter);
    if s.len() > 0 {
        assert(!s.drop_last().contains(peer)) by {
            if s.drop_last().contains(peer) {
                let k = choose|k: int| 0 <= k < s.drop_last().len() && s.drop_last()[k] == peer;
                assert(s[k] == peer);
            }
        }
        lemma_filter_keeps_all(s.drop_last(), peer);
        assert(s.last() != peer) by {
            if s.last() == peer {
                assert(s[s.len() - 1] == peer);
            }
        }
        assert(s.drop_last().push(s.last()) =~= s);
    }
}

/// Toggling twice gives back the same set of likers, whether or not `peer`
/// had liked the post.
pub proof fn lemma_toggle_twice_same_likers(likes: Seq<Seq<char>>, peer: Seq<char>)
    ensures
        toggled(toggled(likes, peer), peer).to_set() == likes.to_set(),
{
    let pred = not_equal_to(peer);
    if likes.contains(peer) {
        let once = likes.filter(pred);
        assert(!once.contains(peer)) by {
            if once.contains(peer) {
                let k = choose|k: int| 0 <= k < once.len() && once[k] == peer;
                likes.lemma_filter_pred(pred, k);
            }
        }
        let twice = once.push(peer);
        assert forall|x: Seq<char>| twice.to_set().contains(x) == likes.to_set().contains(x) by {
            if x == peer {
                assert(twice[once.len() as int] == peer);
            } else {
                if likes.contains(x) {
                    let k = choose|k: int| 0 <= k < likes.len() && likes[k] == x;
                    likes.lemma_filter_contains(pred, k);
                    let m = choose|m: int| 0 <= m < once.len() && once[m] == x;
                    assert(twice[m] == x);
                }
                if twice.contains(x) {
                    let k = choose|k: int| 0 <= k < twice.len() && twice[k] == x;
                    assert(k < once.len());
                    assert(once[k] == x);
                    likes.lemma_filter_contains_rev(pred, x);
                }
            }
        }
        assert(twice.to_set() =~= likes.to_set());
    } else {
        lemma_like_then_unlike(likes, peer);
    }
}

/// A public post is visible to every viewer; a private one to its author
/// alone.
pub proof fn lemma_visibility_tiers(viewer: Seq<char>, p: PostView)
    ensures
        p.visibility == PostVisibility::Public ==> visible_to(viewer, p),
        p.visibility == PostVisibility::Private ==> (visible_to(viewer, p) <==> p.author_id
            == viewer),
{
}

/// A feed cut to a limit no smaller than the number of visible posts holds
/// every public post of the store; any private post in a feed was written
/// by the viewer.
pub proof fn lemma_feed_visibility(posts: Seq<PostView>, viewer: Seq<char>, limit: int, p: PostView)
    requires
        posts.filter(visible_for(viewer)).len() <= limit,
    ensures
        posts.contains(p) && p.visibility == PostVisibility::Public ==> first_n(
            posts.filter(visible_for(viewer)),
            limit,
        ).contains(p),
        posts.filter(visible_for(viewer)).contains(p) && p.visibility == PostVisibility::Private
            ==> p.author_id == viewer,
{
    let f = posts.filter(visible_for(viewer));
    if posts.contains(p) && p.visibility == PostVisibility::Public {
        let k = choose|k: int| 0 <= k < posts.len() && posts[k] == p;
        posts.lemma_filter_contains(visible_for(viewer), k);
    }
    if f.contains(p) {
        let k = choose|k: int| 0 <= k < f.len() && f[k] == p;
        posts.lemma_filter_pred(visible_for(viewer), k);
    }
}

/// Dropping entries keeps a sequence free of duplicates.
pub proof fn lemma_filter_no_duplicates(s: Seq<Seq<char>>, pred: spec_fn(Seq<char>) -> bool)
    requires
        s.no_duplicates(),
    ensures
        s.filter(pred).no_duplicates(),
    decreases s.len(),
{
    reveal(Seq::filter);
    if s.len() > 0 {
        let rest = s.drop_last();
        assert(rest.no_duplicates());
        lemma_filter_no_duplicates(rest, pred);
        if pred(s.last()) {
            assert(!rest.filter(pred).contains(s.last())) by {
                if rest.filter(pred).contains(s.last()) {
                    rest.lemma_filter_contains_rev(pred, s.last());
                    let k = choose|k: int| 0 <= k < rest.len() && rest[k] == s.last();
                    assert(s[k] == s[s.len() - 1]);
                }
            }
        }
    }
}

/// A toggled like list, and a member list after a join or a leave, hold
/// each peer at most once when the list did.
pub proof fn lemma_lists_stay_sets(likes: Seq<Seq<char>>, peer: Seq<char>)
    requires
        likes.no_duplicates(),
    ensures
        toggled(likes, peer).no_duplicates(),
        with_member(likes, peer).no_duplicates(),
        without_member(likes, peer).no_duplicates(),
{
    lemma_filter_no_duplicates(likes, not_equal_to(peer));
}

} // verus!

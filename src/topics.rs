use vstd::prelude::*;
use crate::messages::{topic, TOPIC_PREFIX};

verus! {

/// The full topic of `kind` followed by a slash and `id`.
pub open spec fn scoped_topic(kind: Seq<char>, id: Seq<char>) -> Seq<char> {
    TOPIC_PREFIX@ + seq!['/'] + kind + seq!['/'] + id
}

fn scoped(kind: &str, id: &str) -> (r: String)
    ensures
        r@ == scoped_topic(kind@, id@),
{
    proof {
        reveal_strlit("/");
    }
    let path = String::from_str(kind).concat("/").concat(id);
    let r = topic(path.as_str());
    assert(r@ =~= scoped_topic(kind@, id@));
    r
}

pub fn topic_for_user(peer_id: &str) -> (r: String)
    ensures
        r@ == scoped_topic("user"@, peer_id@),
{
    scoped("user", peer_id)
}

pub fn topic_for_feed(peer_id: &str) -> (r: String)
    ensures
        r@ == scoped_topic("feed"@, peer_id@),
{
    scoped("feed", peer_id)
}

pub fn topic_for_room(room_id: &str) -> (r: String)
    ensures
        r@ == scoped_topic("room"@, room_id@),
{
    scoped("room", room_id)
}

pub fn topic_for_events(peer_id: &str) -> (r: String)
    ensures
        r@ == scoped_topic("events"@, peer_id@),
{
    scoped("events", peer_id)
}

pub fn topic_global_events() -> (r: String)
    ensures
        r@ == TOPIC_PREFIX@ + seq!['/'] + "events/global"@,
{
    topic("events/global")
}

} // verus!

use vstd::prelude::*;
use crate::crypto::PeerIdentity;
use crate::social::{ChatMessage, PrivateMessage};
use crate::store::{index_of, lemma_index_of_unique};
use crate::text::str_eq;
use futures::channel::mpsc;

verus! {

/// How many messages a port's mailbox holds before further sends are
/// dropped.
pub const MAILBOX_CAPACITY: usize = 1024;

pub const SOCIAL_PORT: &'static str = "social";

pub const CHAT_PORT: &'static str = "chat";

pub const FILESHARE_PORT: &'static str = "fileshare";

pub struct ChannelView {
    pub id: u64,
    pub peer: Seq<char>,
    pub port: Seq<char>,
}

/// A conversation between one peer and one port.
#[derive(Debug, Clone)]
pub struct Channel {
    pub id: u64,
    pub peer: PeerIdentity,
    pub port: String,
}

impl View for Channel {
    type V = ChannelView;

    open spec fn view(&self) -> ChannelView {
        ChannelView { id: self.id, peer: self.peer@, port: self.port@ }
    }
}

impl Channel {
    pub fn duplicate(&self) -> (r: Channel)
        ensures
            r@ == self@,
    {
        Channel { id: self.id, peer: self.peer.duplicate(), port: self.port.clone() }
    }
}

pub struct CadetMessageView {
    pub channel: u64,
    pub data: Seq<u8>,
}

/// A payload delivered to a port, tagged with the channel it came through.
#[derive(Debug, Clone)]
pub struct CadetMessage {
    pub channel: u64,
    pub data: Vec<u8>,
}

impl View for CadetMessage {
    type V = CadetMessageView;

    open spec fn view(&self) -> CadetMessageView {
        CadetMessageView { channel: self.channel, data: self.data@ }
    }
}

#[verifier::external_type_specification]
#[verifier::external_body]
#[verifier::reject_recursive_types(T)]
pub struct ExMailboxSender<T>(mpsc::Sender<T>);

#[verifier::external_type_specification]
#[verifier::external_body]
#[verifier::reject_recursive_types(T)]
pub struct ExMailboxReceiver<T>(mpsc::Receiver<T>);

/// The messages put into the channel through this sender, in order.
pub uninterp spec fn enqueued(tx: mpsc::Sender<CadetMessage>) -> Seq<CadetMessageView>;

/// Which channel a sender puts messages into.
pub uninterp spec fn sender_mailbox(tx: mpsc::Sender<CadetMessage>) -> int;

/// Which channel a receiver takes messages from.
pub uninterp spec fn receiver_mailbox(rx: mpsc::Receiver<CadetMessage>) -> int;

/// Relies on futures::channel::mpsc::channel: a new, empty bounded channel
/// whose capacity is `buffer` plus one slot for each sender, and its two
/// ends. It panics when `buffer` reaches its maximum, `usize::MAX / 4`,
/// which `requires` leaves out.
#[verifier::external_body]
fn mailbox(buffer: usize) -> (r: (mpsc::Sender<CadetMessage>, mpsc::Receiver<CadetMessage>))
    requires
        buffer < usize::MAX / 4,
    ensures
        enqueued(r.0).len() == 0,
        sender_mailbox(r.0) == receiver_mailbox(r.1),
{
    mpsc::channel(buffer)
}

/// Relies on futures::channel::mpsc::Sender::try_send: without waiting,
/// the message is put into the channel and the result is true, or, when the
/// channel is full or its receiver is gone, it is dropped and the result is
/// false.
#[verifier::external_body]
fn mailbox_try_send(tx: &mut mpsc::Sender<CadetMessage>, msg: CadetMessage) -> (r: bool)
    ensures
        r ==> enqueued(*final(tx)) == enqueued(*old(tx)).push(msg@),
        !r ==> enqueued(*final(tx)) == enqueued(*old(tx)),
        sender_mailbox(*final(tx)) == sender_mailbox(*old(tx)),
{
    tx.try_send(msg).is_ok()
}

struct Port {
    name: String,
    sender: mpsc::Sender<CadetMessage>,
}

pub open spec fn channel_ids(channels: Seq<ChannelView>) -> Seq<u64> {
    channels.map_values(|c: ChannelView| c.id)
}

/// Whether a send on channel `cid` has somewhere to go: the channel exists
/// and its port is open.
pub open spec fn routable(channels: Seq<ChannelView>, ports: Seq<Seq<char>>, cid: u64) -> bool {
    channel_ids(channels).contains(cid) && ports.contains(
        channels[index_of(channel_ids(channels), cid)].port,
    )
}

/// The position among `ports` of the port that channel `cid` is bound to.
pub open spec fn port_index(channels: Seq<ChannelView>, ports: Seq<Seq<char>>, cid: u64) -> int {
    index_of(ports, channels[index_of(channel_ids(channels), cid)].port)
}

/// The message that a send of `data` on channel `cid` puts in a mailbox.
pub open spec fn message(cid: u64, data: Seq<u8>) -> CadetMessageView {
    CadetMessageView { channel: cid, data }
}

/// The messages that reached the mailbox when the channels `chs` were each
/// sent `data`, where `flags` tells which sends were delivered.
pub open spec fn delivered(chs: Seq<ChannelView>, flags: Seq<bool>, data: Seq<u8>) -> Seq<
    CadetMessageView,
>
    decreases chs.len(),
{
    if chs.len() == 0 || flags.len() != chs.len() {
        Seq::empty()
    } else {
        let rest = delivered(chs.drop_last(), flags.drop_last(), data);
        if flags.last() {
            rest.push(message(chs.last().id, data))
        } else {
            rest
        }
    }
}

/// Routes payloads between peers and named ports through numbered channels.
/// Each open port has a bounded mailbox; a send to a full one is dropped.
pub struct CadetService {
    channels: Vec<Channel>,
    ports: Vec<Port>,
    next_channel_id: u64,
}

impl CadetService {
    pub closed spec fn channels(&self) -> Seq<ChannelView> {
        self.channels@.map_values(|c: Channel| c@)
    }

    /// The names of the open ports.
    pub closed spec fn ports(&self) -> Seq<Seq<char>> {
        self.ports@.map_values(|p: Port| p.name@)
    }

    /// What each open port's current mailbox has been given, in the order
    /// of `ports()`.
    pub closed spec fn mailboxes(&self) -> Seq<Seq<CadetMessageView>> {
        self.ports@.map_values(|p: Port| enqueued(p.sender))
    }

    /// Which channel each open port's mailbox is, in the order of `ports()`.
    pub closed spec fn mailbox_ids(&self) -> Seq<int> {
        self.ports@.map_values(|p: Port| sender_mailbox(p.sender))
    }

    pub closed spec fn next_id(&self) -> u64 {
        self.next_channel_id
    }

    /// Port names and channel identifiers are unique, and every channel
    /// identifier was handed out before the next one.
    pub open spec fn wf(&self) -> bool {
        &&& self.ports().no_duplicates()
        &&& self.mailboxes().len() == self.ports().len()
        &&& self.mailbox_ids().len() == self.ports().len()
        &&& channel_ids(self.channels()).no_duplicates()
        &&& self.next_id() >= 1
        &&& forall|i: int|
            0 <= i < self.channels().len() ==> 1 <= #[trigger] self.channels()[i].id
                < self.next_id()
    }

    pub fn new() -> (r: CadetService)
        ensures
            r.wf(),
            r.channels().len() == 0,
            r.ports().len() == 0,
            r.next_id() == 1,
    {
        let r = CadetService { channels: Vec::new(), ports: Vec::new(), next_channel_id: 1 };
        assert(r.ports() =~= Seq::empty());
        assert(channel_ids(r.channels()) =~= Seq::empty());
        r
    }

    /// The identifier the next channel will get.
    pub fn next_channel_id(&self) -> (r: u64)
        ensures
            r == self.next_id(),
    {
        self.next_channel_id
    }

    fn find_port(&self, name: &str) -> (r: Option<usize>)
        requires
            self.wf(),
        ensures
            match r {
                Some(i) => i < self.ports@.len() && index_of(self.ports(), name@) == i
                    && self.ports().contains(name@),
                None => !self.ports().contains(name@),
            },
    {
        let mut i: usize = 0;
        while i < self.ports.len()
            invariant
                self.wf(),
                i <= self.ports@.len(),
                forall|j: int| 0 <= j < i ==> self.ports()[j] != name@,
            decreases self.ports@.len() - i,
        {
            assert(self.ports()[i as int] == self.ports@[i as int].name@);
            if str_eq(self.ports[i].name.as_str(), name) {
                proof {
                    lemma_index_of_unique(self.ports(), name@, i as int);
                }
                return Some(i);
            }
            i = i + 1;
        }
        None
    }

    fn find_channel(&self, id: u64) -> (r: Option<usize>)
        requires
            self.wf(),
        ensures
            match r {
                Some(i) => i < self.channels@.len() && index_of(channel_ids(self.channels()), id)
                    == i && channel_ids(self.channels()).contains(id),
                None => !channel_ids(self.channels()).contains(id),
            },
    {
        let mut i: usize = 0;
        while i < self.channels.len()
            invariant
                self.wf(),
                i <= self.channels@.len(),
                forall|j: int| 0 <= j < i ==> channel_ids(self.channels())[j] != id,
            decreases self.channels@.len() - i,
        {
            assert(channel_ids(self.channels())[i as int] == self.channels@[i as int].id);
            if self.channels[i].id == id {
                proof {
                    lemma_index_of_unique(channel_ids(self.channels()), id, i as int);
                }
                return Some(i);
            }
            i = i + 1;
        }
        None
    }

    /// Opens `port` with a new, empty mailbox of `MAILBOX_CAPACITY`
    /// messages and returns its receiving end. Opening a port again replaces
    /// its mailbox, so the receiver returned before gets nothing new.
    pub fn open_port(&mut self, port: &str) -> (r: mpsc::Receiver<CadetMessage>)
        requires
            old(self).wf(),
        ensures
            final(self).wf(),
            if old(self).ports().contains(port@) {
                let i = index_of(old(self).ports(), port@);
                &&& final(self).ports() == old(self).ports()
                &&& final(self).mailboxes() == old(self).mailboxes().update(i, Seq::empty())
                &&& final(self).mailbox_ids() == old(self).mailbox_ids().update(
                    i,
                    receiver_mailbox(r),
                )
            } else {
                &&& final(self).ports() == old(self).ports().push(port@)
                &&& final(self).mailboxes() == old(self).mailboxes().push(Seq::empty())
                &&& final(self).mailbox_ids() == old(self).mailbox_ids().push(receiver_mailbox(r))
            },
            final(self).channels() == old(self).channels(),
            final(self).next_id() == old(self).next_id(),
    {
        // The channel adds one slot for its single sender.
        let (sender, receiver) = mailbox(MAILBOX_CAPACITY - 1);
        assert(enqueued(sender) =~= Seq::<CadetMessageView>::empty());
        let fresh = Port { name: port.to_owned(), sender };
        match self.find_port(port) {
            Some(i) => {
                self.ports.set(i, fresh);
                assert(self.ports() =~= old(self).ports());
                assert(self.mailboxes() =~= old(self).mailboxes().update(i as int, Seq::empty()));
                assert(self.mailbox_ids() =~= old(self).mailbox_ids().update(
                    i as int,
                    receiver_mailbox(receiver),
                ));
            },
            None => {
                self.ports.push(fresh);
                assert(self.ports() =~= old(self).ports().push(port@));
                assert(self.mailboxes() =~= old(self).mailboxes().push(Seq::empty()));
                assert(self.mailbox_ids() =~= old(self).mailbox_ids().push(
                    receiver_mailbox(receiver),
                ));
            },
        }
        receiver
    }

    /// Closes `port`: its mailbox goes away and sends on channels bound to it
    /// are no longer delivered. The channels stay.
    pub fn close_port(&mut self, port: &str)
        requires
            old(self).wf(),
        ensures
            final(self).wf(),
            if old(self).ports().contains(port@) {
                let i = index_of(old(self).ports(), port@);
                &&& final(self).ports() == old(self).ports().remove(i)
                &&& final(self).mailboxes() == old(self).mailboxes().remove(i)
                &&& final(self).mailbox_ids() == old(self).mailbox_ids().remove(i)
            } else {
                &&& final(self).ports() == old(self).ports()
                &&& final(self).mailboxes() == old(self).mailboxes()
                &&& final(self).mailbox_ids() == old(self).mailbox_ids()
            },
            !final(self).ports().contains(port@),
            final(self).channels() == old(self).channels(),
            final(self).next_id() == old(self).next_id(),
    {
        if let Some(i) = self.find_port(port) {
            let _closed = self.ports.remove(i);
            proof {
                let onames = old(self).ports();
                let names = self.ports();
                assert(names =~= onames.remove(i as int));
                assert(self.mailboxes() =~= old(self).mailboxes().remove(i as int));
                assert(self.mailbox_ids() =~= old(self).mailbox_ids().remove(i as int));
                assert(!names.contains(port@)) by {
                    if names.contains(port@) {
                        let k = choose|k: int| 0 <= k < names.len() && names[k] == port@;
                        if k < i {
                            assert(onames[k] == port@);
                        } else {
                            assert(onames[k + 1] == port@);
                        }
                    }
                }
            }
        }
    }

    /// Opens a channel between `peer` and `port` under the next identifier.
    /// The port need not be open.
    pub fn create_channel(&mut self, peer: PeerIdentity, port: &str) -> (r: Channel)
        requires
            old(self).wf(),
            old(self).next_id() < u64::MAX,
        ensures
            final(self).wf(),
            r@ == (ChannelView { id: old(self).next_id(), peer: peer@, port: port@ }),
            final(self).channels() == old(self).channels().push(r@),
            final(self).next_id() == old(self).next_id() + 1,
            final(self).ports() == old(self).ports(),
            final(self).mailboxes() == old(self).mailboxes(),
            final(self).mailbox_ids() == old(self).mailbox_ids(),
    {
        let id = self.next_channel_id;
        self.next_channel_id = id + 1;
        let channel = Channel { id, peer, port: port.to_owned() };
        let out = channel.duplicate();
        let ghost cv = channel@;
        self.channels.push(channel);
        proof {
            assert(self.channels() =~= old(self).channels().push(cv));
            let oids = channel_ids(old(self).channels());
            assert(channel_ids(self.channels()) =~= oids.push(id));
            assert(!oids.contains(id)) by {
                if oids.contains(id) {
                    let k = choose|k: int| 0 <= k < oids.len() && oids[k] == id;
                    assert(old(self).channels()[k].id < id);
                }
            }
        }
        out
    }

    /// Forgets the channel. Messages already in a mailbox stay there.
    pub fn destroy_channel(&mut self, channel_id: u64)
        requires
            old(self).wf(),
        ensures
            final(self).wf(),
            final(self).channels() == (if channel_ids(old(self).channels()).contains(channel_id) {
                old(self).channels().remove(index_of(channel_ids(old(self).channels()), channel_id))
            } else {
                old(self).channels()
            }),
            !channel_ids(final(self).channels()).contains(channel_id),
            final(self).ports() == old(self).ports(),
            final(self).mailboxes() == old(self).mailboxes(),
            final(self).mailbox_ids() == old(self).mailbox_ids(),
            final(self).next_id() == old(self).next_id(),
    {
        if let Some(i) = self.find_channel(channel_id) {
            let _gone = self.channels.remove(i);
            proof {
                let olds = old(self).channels();
                let oids = channel_ids(olds);
                let ids = channel_ids(self.channels());
                assert(self.channels() =~= olds.remove(i as int));
                assert(ids =~= oids.remove(i as int));
                assert forall|k: int| 0 <= k < self.channels().len() implies 1 <= #[trigger] self.channels()[k].id < self.next_id() by {
                    if k < i {
                        assert(self.channels()[k] == olds[k]);
                    } else {
                        assert(self.channels()[k] == olds[k + 1]);
                    }
                }
                assert(!ids.contains(channel_id)) by {
                    if ids.contains(channel_id) {
                        let k = choose|k: int| 0 <= k < ids.len() && ids[k] == channel_id;
                        if k < i {
                            assert(oids[k] == channel_id);
                        } else {
                            assert(oids[k + 1] == channel_id);
                        }
                    }
                }
            }
        }
    }

    /// Offers `data` to the mailbox of the channel's port without waiting.
    /// It is never delivered when the channel does not exist or its port is
    /// closed. Otherwise the mailbox takes it unless it is full or its
    /// receiver is gone; the result tells which. Only that mailbox changes.
    pub fn send(&mut self, channel_id: u64, data: Vec<u8>) -> (r: bool)
        requires
            old(self).wf(),
        ensures
            final(self).wf(),
            r ==> routable(old(self).channels(), old(self).ports(), channel_id),
            r ==> final(self).mailboxes() == old(self).mailboxes().update(
                port_index(old(self).channels(), old(self).ports(), channel_id),
                old(self).mailboxes()[port_index(
                    old(self).channels(),
                    old(self).ports(),
                    channel_id,
                )].push(message(channel_id, data@)),
            ),
            !r ==> final(self).mailboxes() == old(self).mailboxes(),
            final(self).mailbox_ids() == old(self).mailbox_ids(),
            final(self).ports() == old(self).ports(),
            final(self).channels() == old(self).channels(),
            final(self).next_id() == old(self).next_id(),
    {
        let ci = match self.find_channel(channel_id) {
            Some(ci) => ci,
            None => return false,
        };
        assert(self.channels()[ci as int].port == self.channels@[ci as int].port@);
        let pi = match self.find_port(self.channels[ci].port.as_str()) {
            Some(pi) => pi,
            None => return false,
        };
        let msg = CadetMessage { channel: channel_id, data };
        let ghost mv = msg@;
        let ghost before = self.ports@;
        let r = mailbox_try_send(&mut self.ports[pi].sender, msg);
        assert(self.ports@[pi as int].name == before[pi as int].name);
        assert(self.ports() =~= old(self).ports());
        assert(self.mailbox_ids() =~= old(self).mailbox_ids());
        if r {
            assert(self.mailboxes() =~= old(self).mailboxes().update(
                pi as int,
                old(self).mailboxes()[pi as int].push(mv),
            ));
        } else {
            assert(self.mailboxes() =~= old(self).mailboxes());
        }
        r
    }

    /// Sends `data` on every channel bound to `port`, each on its own, so a
    /// drop on one does not keep it from the others. The result holds one
    /// flag per such channel, in channel order, telling whether its send
    /// was delivered; the delivered messages join the port's mailbox in that
    /// order.
    pub fn broadcast(&mut self, port: &str, data: Vec<u8>) -> (r: Vec<bool>)
        requires
            old(self).wf(),
        ensures
            final(self).wf(),
            r@.len() == old(self).channels().filter(bound_to(port@)).len(),
            if old(self).ports().contains(port@) {
                let i = index_of(old(self).ports(), port@);
                final(self).mailboxes() == old(self).mailboxes().update(
                    i,
                    old(self).mailboxes()[i] + delivered(
                        old(self).channels().filter(bound_to(port@)),
                        r@,
                        data@,
                    ),
                )
            } else {
                &&& final(self).mailboxes() == old(self).mailboxes()
                &&& forall|k: int| 0 <= k < r@.len() ==> !r@[k]
            },
            final(self).mailbox_ids() == old(self).mailbox_ids(),
            final(self).ports() == old(self).ports(),
            final(self).channels() == old(self).channels(),
            final(self).next_id() == old(self).next_id(),
    {
        let ghost chs = old(self).channels();
        let ghost open = old(self).ports().contains(port@);
        let ghost pi = index_of(old(self).ports(), port@);
        let mut flags: Vec<bool> = Vec::new();
        let mut i: usize = 0;
        while i < self.channels.len()
            invariant
                self.wf(),
                i <= self.channels@.len(),
                self.channels() == chs,
                self.ports() == old(self).ports(),
                self.mailbox_ids() == old(self).mailbox_ids(),
                self.next_id() == old(self).next_id(),
                open == old(self).ports().contains(port@),
                pi == index_of(old(self).ports(), port@),
                open ==> 0 <= pi < old(self).ports().len() && old(self).ports()[pi] == port@,
                flags@.len() == chs.subrange(0, i as int).filter(bound_to(port@)).len(),
                open ==> self.mailboxes() == old(self).mailboxes().update(
                    pi,
                    old(self).mailboxes()[pi] + delivered(
                        chs.subrange(0, i as int).filter(bound_to(port@)),
                        flags@,
                        data@,
                    ),
                ),
                !open ==> self.mailboxes() == old(self).mailboxes(),
                !open ==> forall|k: int| 0 <= k < flags@.len() ==> !flags@[k],
            decreases self.channels@.len() - i,
        {
            let ghost sub = chs.subrange(0, i as int).filter(bound_to(port@));
            proof {
                reveal(Seq::filter);
                assert(chs.subrange(0, i + 1).drop_last() =~= chs.subrange(0, i as int));
            }
            assert(self.channels()[i as int].port == self.channels@[i as int].port@);
            if str_eq(self.channels[i].port.as_str(), port) {
                let id = self.channels[i].id;
                proof {
                    lemma_index_of_unique(channel_ids(chs), id, i as int);
                    assert(channel_ids(chs)[i as int] == id);
                }
                let ghost cur = self.mailboxes();
                let ok = self.send(id, copy_bytes(&data));
                let ghost before = flags@;
                flags.push(ok);
                proof {
                    let c = chs[i as int];
                    assert(sub.push(c).drop_last() =~= sub);
                    assert(flags@.drop_last() =~= before);
                    if open {
                        lemma_index_of_unique(old(self).ports(), port@, pi);
                        let d = delivered(sub, before, data@);
                        if ok {
                            assert(old(self).mailboxes()[pi] + d.push(message(id, data@)) =~= (
                            old(self).mailboxes()[pi] + d).push(message(id, data@)));
                            assert(self.mailboxes() =~= old(self).mailboxes().update(
                                pi,
                                old(self).mailboxes()[pi] + d.push(message(id, data@)),
                            ));
                        }
                    }
                }
            }
            i = i + 1;
        }
        assert(chs.subrange(0, chs.len() as int) =~= chs);
        flags
    }
}

/// A copy of a byte string.
fn copy_bytes(v: &Vec<u8>) -> (r: Vec<u8>)
    ensures
        r@ == v@,
{
    let mut r: Vec<u8> = Vec::new();
    let mut i: usize = 0;
    while i < v.len()
        invariant
            i <= v@.len(),
            r@ == v@.subrange(0, i as int),
        decreases v@.len() - i,
    {
        r.push(v[i]);
        i = i + 1;
    }
    assert(r@ == v@.subrange(0, v@.len() as int));
    assert(v@.subrange(0, v@.len() as int) =~= v@);
    r
}

impl Default for CadetService {
    fn default() -> (r: CadetService)
        ensures
            r.wf(),
            r.channels().len() == 0,
            r.ports().len() == 0,
            r.next_id() == 1,
    {
        CadetService::new()
    }
}

/// What travels between peers over the social, chat and friend ports.
pub enum SocialCadetMessage {
    Post { post_id: u128, author: String, content: String },
    Chat { room_id: u128, message: ChatMessage },
    FriendRequest { from: String },
    FriendAccept { to: String },
    PrivateMessage { message: PrivateMessage },
}

/// Channels bound to `port`.
pub open spec fn bound_to(port: Seq<char>) -> spec_fn(ChannelView) -> bool {
    |c: ChannelView| c.port == port
}

} // verus!

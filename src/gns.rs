use vstd::prelude::*;
use crate::crypto::{PeerIdentity, PublicKey};
use crate::store::{index_of, lemma_index_of_unique, lookup};

verus! {

pub struct GnsRecordView {
    pub record_type: Seq<char>,
    pub data: Seq<char>,
    pub expiration: u64,
    pub flags: u32,
}

/// One record of a name in a zone.
#[derive(Debug, Clone)]
pub struct GnsRecord {
    pub record_type: String,
    pub data: String,
    pub expiration: u64,
    pub flags: u32,
}

impl View for GnsRecord {
    type V = GnsRecordView;

    open spec fn view(&self) -> GnsRecordView {
        GnsRecordView {
            record_type: self.record_type@,
            data: self.data@,
            expiration: self.expiration,
            flags: self.flags,
        }
    }
}

impl GnsRecord {
    pub fn duplicate(&self) -> (r: GnsRecord)
        ensures
            r@ == self@,
    {
        GnsRecord {
            record_type: self.record_type.clone(),
            data: self.data.clone(),
            expiration: self.expiration,
            flags: self.flags,
        }
    }
}

pub open spec fn record_views(s: Seq<GnsRecord>) -> Seq<GnsRecordView> {
    s.map_values(|r: GnsRecord| r@)
}

/// The cache key of a name's records of one type in a zone: zone, name and
/// type joined by colons.
pub open spec fn record_key(zone: Seq<char>, name: Seq<char>, record_type: Seq<char>) -> Seq<
    char,
> {
    zone + seq![':'] + name + seq![':'] + record_type
}

fn make_key(zone: &PublicKey, name: &str, record_type: &str) -> (r: String)
    ensures
        r@ == record_key(zone@, name@, record_type@),
{
    proof {
        reveal_strlit(":");
    }
    String::from_str(zone.as_str()).concat(":").concat(name).concat(":").concat(record_type)
}

struct ZoneEntry {
    key: String,
    records: Vec<GnsRecord>,
}

/// A cache of name records per zone, with an optional local zone.
pub struct GnsService {
    zone_cache: Vec<ZoneEntry>,
    local_zone: Option<PublicKey>,
}

impl GnsService {
    pub closed spec fn keys(&self) -> Seq<Seq<char>> {
        self.zone_cache@.map_values(|e: ZoneEntry| e.key@)
    }

    pub closed spec fn entries(&self) -> Seq<Seq<GnsRecordView>> {
        self.zone_cache@.map_values(|e: ZoneEntry| record_views(e.records@))
    }

    pub closed spec fn local(&self) -> Option<Seq<char>> {
        match self.local_zone {
            Some(z) => Some(z@),
            None => None,
        }
    }

    /// The records kept under `key`, if any.
    pub open spec fn cached(&self, key: Seq<char>) -> Option<Seq<GnsRecordView>> {
        lookup(self.keys(), self.entries(), key)
    }

    pub open spec fn wf(&self) -> bool {
        &&& self.keys().no_duplicates()
        &&& self.keys().len() == self.entries().len()
    }

    pub fn new() -> (r: GnsService)
        ensures
            r.wf(),
            r.keys().len() == 0,
            r.local() is None,
    {
        let r = GnsService { zone_cache: Vec::new(), local_zone: None };
        assert(r.keys() =~= Seq::empty());
        r
    }

    pub fn set_local_zone(&mut self, zone: PublicKey)
        ensures
            final(self).local() == Some(zone@),
            final(self).keys() == old(self).keys(),
            final(self).entries() == old(self).entries(),
    {
        self.local_zone = Some(zone);
    }

    fn find(&self, key: &String) -> (r: Option<usize>)
        requires
            self.wf(),
        ensures
            match r {
                Some(i) => i < self.zone_cache@.len() && index_of(self.keys(), key@) == i
                    && self.keys().contains(key@),
                None => !self.keys().contains(key@),
            },
    {
        let mut i: usize = 0;
        while i < self.zone_cache.len()
            invariant
                self.wf(),
                i <= self.zone_cache@.len(),
                forall|j: int| 0 <= j < i ==> self.keys()[j] != key@,
            decreases self.zone_cache@.len() - i,
        {
            assert(self.keys()[i as int] == self.zone_cache@[i as int].key@);
            if self.zone_cache[i].key == *key {
                proof {
                    lemma_index_of_unique(self.keys(), key@, i as int);
                }
                return Some(i);
            }
            i = i + 1;
        }
        None
    }

    /// The records of `name` of the given type in `zone`, if any were
    /// stored.
    pub fn lookup(&self, name: &str, zone: &PublicKey, record_type: &str) -> (r: Option<
        Vec<GnsRecord>,
    >)
        requires
            self.wf(),
        ensures
            match r {
                Some(v) => self.cached(record_key(zone@, name@, record_type@)) == Some(
                    record_views(v@),
                ),
                None => self.cached(record_key(zone@, name@, record_type@)) is None,
            },
    {
        let key = make_key(zone, name, record_type);
        match self.find(&key) {
            None => None,
            Some(i) => {
                let src = &self.zone_cache[i].records;
                let mut out: Vec<GnsRecord> = Vec::new();
                let mut j: usize = 0;
                while j < src.len()
                    invariant
                        j <= src@.len(),
                        record_views(out@) == record_views(src@).subrange(0, j as int),
                    decreases src@.len() - j,
                {
                    let rec = src[j].duplicate();
                    let ghost before = out@;
                    out.push(rec);
                    assert(record_views(out@) =~= record_views(before).push(rec@));
                    assert(record_views(src@).subrange(0, j + 1) =~= record_views(src@).subrange(
                        0,
                        j as int,
                    ).push(src@[j as int]@));
                    j = j + 1;
                }
                assert(record_views(src@).subrange(0, src@.len() as int) =~= record_views(src@));
                assert(self.entries()[i as int] == record_views(src@));
                Some(out)
            },
        }
    }

    /// The records of `name` of the given type in the local zone; none when
    /// no local zone is set.
    pub fn lookup_in_local_zone(&self, name: &str, record_type: &str) -> (r: Option<Vec<GnsRecord>>)
        requires
            self.wf(),
        ensures
            match self.local() {
                None => r is None,
                Some(z) => match r {
                    Some(v) => self.cached(record_key(z, name@, record_type@)) == Some(
                        record_views(v@),
                    ),
                    None => self.cached(record_key(z, name@, record_type@)) is None,
                },
            },
    {
        match &self.local_zone {
            None => None,
            Some(zone) => self.lookup(name, zone, record_type),
        }
    }

    /// Appends `record` to those of `name` of its type in `zone`.
    pub fn store_record(&mut self, name: &str, zone: &PublicKey, record: GnsRecord)
        requires
            old(self).wf(),
        ensures
            final(self).wf(),
            ({
                let k = record_key(zone@, name@, record@.record_type);
                &&& final(self).cached(k) == Some(
                    match old(self).cached(k) {
                        Some(rs) => rs.push(record@),
                        None => seq![record@],
                    },
                )
                &&& forall|other: Seq<char>|
                    other != k ==> final(self).cached(other) == old(self).cached(other)
            }),
            final(self).local() == old(self).local(),
    {
        let key = make_key(zone, name, record.record_type.as_str());
        let ghost k = key@;
        let ghost rv = record@;
        let ghost mut pos: int = 0;
        match self.find(&key) {
            Some(i) => {
                let ghost before = self.zone_cache@[i as int].records@;
                self.zone_cache[i].records.push(record);
                proof {
                    pos = i as int;
                    assert(record_views(self.zone_cache@[i as int].records@) =~= record_views(
                        before,
                    ).push(rv));
                    assert(self.keys() =~= old(self).keys());
                    assert(self.entries() =~= old(self).entries().update(
                        i as int,
                        old(self).entries()[i as int].push(rv),
                    ));
                }
            },
            None => {
                let records = vec![record];
                assert(record_views(records@) =~= seq![rv]);
                self.zone_cache.push(ZoneEntry { key, records });
                proof {
                    pos = old(self).keys().len() as int;
                    assert(self.keys() =~= old(self).keys().push(k));
                    assert(self.entries() =~= old(self).entries().push(seq![rv]));
                }
            },
        }
        proof {
            let keys = self.keys();
            let okeys = old(self).keys();
            assert(keys[pos] == k);
            lemma_index_of_unique(keys, k, pos);
            assert forall|other: Seq<char>| other != k implies self.cached(other) == old(
                self,
            ).cached(other) by {
                if okeys.contains(other) {
                    let j = index_of(okeys, other);
                    assert(keys[j] == other);
                    lemma_index_of_unique(keys, other, j);
                }
                if keys.contains(other) {
                    let j = index_of(keys, other);
                    assert(j != pos);
                    assert(okeys[j] == other);
                }
            }
        }
    }

    /// A record that ties `peer` to `username`: type IDENTITY, data
    /// `peer:username`, never expiring, no flags.
    pub fn create_identity_record(&self, peer: &PeerIdentity, username: &str) -> (r: GnsRecord)
        ensures
            r@.record_type == "IDENTITY"@,
            r@.data == peer@ + seq![':'] + username@,
            r@.expiration == u64::MAX,
            r@.flags == 0,
    {
        proof {
            reveal_strlit(":");
        }
        GnsRecord {
            record_type: String::from_str("IDENTITY"),
            data: peer.to_string().concat(":").concat(username),
            expiration: u64::MAX,
            flags: 0,
        }
    }
}

impl Default for GnsService {
    fn default() -> (r: GnsService)
        ensures
            r.wf(),
            r.keys().len() == 0,
            r.local() is None,
    {
        GnsService::new()
    }
}

/// The kinds of name records.
#[derive(Debug, Clone, Copy, PartialEq, Eq, Structural)]
pub enum RecordType {
    A,
    AAAA,
    CNAME,
    NS,
    PKEY,
    EDKEY,
    GNS2DNS,
    IDENTITY,
    SOCIAL,
    TEXT,
    BOX,
}

/// The name of each kind of record.
pub open spec fn record_type_name(t: RecordType) -> Seq<char> {
    match t {
        RecordType::A => "A"@,
        RecordType::AAAA => "AAAA"@,
        RecordType::CNAME => "CNAME"@,
        RecordType::NS => "NS"@,
        RecordType::PKEY => "PKEY"@,
        RecordType::EDKEY => "EDKEY"@,
        RecordType::GNS2DNS => "GNS2DNS"@,
        RecordType::IDENTITY => "IDENTITY"@,
        RecordType::SOCIAL => "SOCIAL"@,
        RecordType::TEXT => "TEXT"@,
        RecordType::BOX => "BOX"@,
    }
}

impl RecordType {
    pub fn as_str(&self) -> (r: &'static str)
        ensures
            r@ == record_type_name(*self),
    {
        match self {
            RecordType::A => "A",
            RecordType::AAAA => "AAAA",
            RecordType::CNAME => "CNAME",
            RecordType::NS => "NS",
            RecordType::PKEY => "PKEY",
            RecordType::EDKEY => "EDKEY",
            RecordType::GNS2DNS => "GNS2DNS",
            RecordType::IDENTITY => "IDENTITY",
            RecordType::SOCIAL => "SOCIAL",
            RecordType::TEXT => "TEXT",
            RecordType::BOX => "BOX",
        }
    }
}

} // verus!

use vstd::prelude::*;
use crate::crypto::{PrivateKey, PublicKey};
use crate::platform::{new_uuid, uuid_text, uuid_text_of};
use crate::text::str_eq;

verus! {

pub struct EgoView {
    pub name: Seq<char>,
    pub private_key: Seq<char>,
    pub public_key: Seq<char>,
}

/// A named identity with its key pair.
#[derive(Debug, Clone)]
pub struct Ego {
    pub name: String,
    pub private_key: PrivateKey,
    pub public_key: PublicKey,
}

impl View for Ego {
    type V = EgoView;

    open spec fn view(&self) -> EgoView {
        EgoView {
            name: self.name@,
            private_key: self.private_key@,
            public_key: self.public_key@,
        }
    }
}

impl Ego {
    /// An identity named `name` with a fresh private key `sk:<uuid>` and the
    /// public key paired with it.
    pub fn new(name: String) -> (r: Ego)
        ensures
            r@.name == name@,
            exists|v: u128| r@.private_key == "sk:"@ + uuid_text_of(v),
            r@.public_key == "pub:"@ + r@.private_key,
    {
        let v = new_uuid();
        let private_key = PrivateKey::new(String::from_str("sk:").concat(uuid_text(v).as_str()));
        let public_key = private_key.public_key();
        Ego { name, private_key, public_key }
    }

    pub fn duplicate(&self) -> (r: Ego)
        ensures
            r@ == self@,
    {
        Ego {
            name: self.name.clone(),
            private_key: self.private_key.duplicate(),
            public_key: self.public_key.duplicate(),
        }
    }
}

pub open spec fn ego_views(s: Seq<Ego>) -> Seq<EgoView> {
    s.map_values(|e: Ego| e@)
}

/// Whether `i` is the first position of an identity named `name`.
pub open spec fn first_named(egos: Seq<EgoView>, name: Seq<char>, i: int) -> bool {
    &&& 0 <= i < egos.len()
    &&& egos[i].name == name
    &&& forall|j: int| 0 <= j < i ==> egos[j].name != name
}

/// The identities of this node, in creation order, and which one is the
/// default.
pub struct IdentityService {
    egos: Vec<Ego>,
    default_ego: Option<String>,
}

impl IdentityService {
    pub closed spec fn egos(&self) -> Seq<EgoView> {
        ego_views(self.egos@)
    }

    pub closed spec fn default_name(&self) -> Option<Seq<char>> {
        match self.default_ego {
            Some(n) => Some(n@),
            None => None,
        }
    }

    pub fn new() -> (r: IdentityService)
        ensures
            r.egos().len() == 0,
            r.default_name() is None,
    {
        let r = IdentityService { egos: Vec::new(), default_ego: None };
        assert(r.egos() =~= Seq::empty());
        r
    }

    /// Creates an identity named `name` and keeps it.
    pub fn create_ego(&mut self, name: &str) -> (r: Ego)
        ensures
            r@.name == name@,
            r@.public_key == "pub:"@ + r@.private_key,
            final(self).egos() == old(self).egos().push(r@),
            final(self).default_name() == old(self).default_name(),
    {
        let ego = Ego::new(name.to_owned());
        let out = ego.duplicate();
        let ghost ev = ego@;
        self.egos.push(ego);
        assert(self.egos() =~= old(self).egos().push(ev));
        out
    }

    /// The first identity named `name`, if any.
    pub fn get_ego(&self, name: &str) -> (r: Option<&Ego>)
        ensures
            match r {
                Some(e) => exists|i: int| first_named(self.egos(), name@, i) && self.egos()[i] == e@,
                None => forall|j: int| 0 <= j < self.egos().len() ==> self.egos()[j].name != name@,
            },
    {
        let mut i: usize = 0;
        while i < self.egos.len()
            invariant
                i <= self.egos@.len(),
                forall|j: int| 0 <= j < i ==> self.egos()[j].name != name@,
            decreases self.egos@.len() - i,
        {
            assert(self.egos()[i as int] == self.egos@[i as int]@);
            if str_eq(self.egos[i].name.as_str(), name) {
                assert(first_named(self.egos(), name@, i as int));
                return Some(&self.egos[i]);
            }
            i = i + 1;
        }
        None
    }

    pub fn set_default(&mut self, name: &str)
        ensures
            final(self).default_name() == Some(name@),
            final(self).egos() == old(self).egos(),
    {
        self.default_ego = Some(name.to_owned());
    }

    /// The first identity with the default name; none when no default is set
    /// or no identity has that name.
    pub fn get_default(&self) -> (r: Option<&Ego>)
        ensures
            match self.default_name() {
                None => r is None,
                Some(n) => match r {
                    Some(e) => exists|i: int| first_named(self.egos(), n, i) && self.egos()[i] == e@,
                    None => forall|j: int| 0 <= j < self.egos().len() ==> self.egos()[j].name != n,
                },
            },
    {
        match &self.default_ego {
            None => None,
            Some(name) => self.get_ego(name.as_str()),
        }
    }

    /// All identities, in creation order.
    pub fn list_egos(&self) -> (r: &[Ego])
        ensures
            ego_views(r@) == self.egos(),
    {
        self.egos.as_slice()
    }
}

impl Default for IdentityService {
    fn default() -> (r: IdentityService)
        ensures
            r.egos().len() == 0,
            r.default_name() is None,
    {
        IdentityService::new()
    }
}

} // verus!

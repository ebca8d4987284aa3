use vstd::prelude::*;
use crate::platform::{new_uuid, uuid_text, uuid_text_of};

verus! {

/// Opaque identifier of a peer, as handed out by the identity provider.
#[derive(Debug, Clone, Eq, Hash)]
pub struct PeerIdentity(String);

impl View for PeerIdentity {
    type V = Seq<char>;

    closed spec fn view(&self) -> Seq<char> {
        self.0@
    }
}

impl DeepView for PeerIdentity {
    type V = Seq<char>;

    open spec fn deep_view(&self) -> Seq<char> {
        self@
    }
}

impl PeerIdentity {
    pub fn new(id: String) -> (r: PeerIdentity)
        ensures
            r@ == id@,
    {
        PeerIdentity(id)
    }

    pub fn as_str(&self) -> (r: &str)
        ensures
            r@ == self@,
    {
        self.0.as_str()
    }

    /// The identifier as an owned string.
    pub fn to_string(&self) -> (r: String)
        ensures
            r@ == self@,
    {
        self.0.clone()
    }

    /// A fresh random identifier.
    pub fn generate() -> (r: PeerIdentity)
        ensures
            exists|v: u128| r@ == uuid_text_of(v),
    {
        let v = new_uuid();
        PeerIdentity(uuid_text(v))
    }

    /// A copy that has the same identifier.
    pub fn duplicate(&self) -> (r: PeerIdentity)
        ensures
            r@ == self@,
    {
        PeerIdentity(self.0.clone())
    }
}

impl Default for PeerIdentity {
    /// A fresh random identifier.
    fn default() -> (r: PeerIdentity)
        ensures
            exists|v: u128| r@ == uuid_text_of(v),
    {
        PeerIdentity::generate()
    }
}

impl PartialEq for PeerIdentity {
    fn eq(&self, other: &PeerIdentity) -> (r: bool) {
        self.0 == other.0
    }
}

impl vstd::std_specs::cmp::PartialEqSpecImpl for PeerIdentity {
    open spec fn obeys_eq_spec() -> bool {
        true
    }

    open spec fn eq_spec(&self, other: &PeerIdentity) -> bool {
        self@ == other@
    }
}

/// The text form of a content hash.
#[derive(Debug, Clone)]
pub struct HashCode(String);

impl View for HashCode {
    type V = Seq<char>;

    closed spec fn view(&self) -> Seq<char> {
        self.0@
    }
}

impl HashCode {
    pub fn new(hash: String) -> (r: HashCode)
        ensures
            r@ == hash@,
    {
        HashCode(hash)
    }

    pub fn as_str(&self) -> (r: &str)
        ensures
            r@ == self@,
    {
        self.0.as_str()
    }
}

/// The text form of a public key.
#[derive(Debug, Clone)]
pub struct PublicKey(String);

impl View for PublicKey {
    type V = Seq<char>;

    closed spec fn view(&self) -> Seq<char> {
        self.0@
    }
}

impl PublicKey {
    pub fn new(key: String) -> (r: PublicKey)
        ensures
            r@ == key@,
    {
        PublicKey(key)
    }

    pub fn as_str(&self) -> (r: &str)
        ensures
            r@ == self@,
    {
        self.0.as_str()
    }

    pub fn duplicate(&self) -> (r: PublicKey)
        ensures
            r@ == self@,
    {
        PublicKey(self.0.clone())
    }
}

/// The text form of a private key.
#[derive(Debug, Clone)]
pub struct PrivateKey(String);

impl View for PrivateKey {
    type V = Seq<char>;

    closed spec fn view(&self) -> Seq<char> {
        self.0@
    }
}

impl PrivateKey {
    pub fn new(key: String) -> (r: PrivateKey)
        ensures
            r@ == key@,
    {
        PrivateKey(key)
    }

    pub fn as_str(&self) -> (r: &str)
        ensures
            r@ == self@,
    {
        self.0.as_str()
    }

    /// The public key paired with this one: the private key's text after a
    /// `pub:` prefix.
    pub fn public_key(&self) -> (r: PublicKey)
        ensures
            r@ == "pub:"@ + self@,
    {
        PublicKey::new(String::from_str("pub:").concat(self.0.as_str()))
    }

    pub fn duplicate(&self) -> (r: PrivateKey)
        ensures
            r@ == self@,
    {
        PrivateKey(self.0.clone())
    }
}

} // verus!

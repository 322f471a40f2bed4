use std::ops::Range;

use indexmap::IndexMap;
use vstd::prelude::*;

verus! {

/// Child indices from this value on are hardened.
pub const HARDENED_INDEX_BOUNDARY: u32 = 0x8000_0000;

/// Child index in the non-hardened range, derivable from a public key alone.
#[derive(Copy, Clone, PartialOrd, Ord, PartialEq, Eq, Hash, Debug)]
pub struct NormalIndex(u32);

impl NormalIndex {
    #[verifier::type_invariant]
    spec fn inv(self) -> bool {
        self.0 < HARDENED_INDEX_BOUNDARY
    }

    /// The child number.
    pub closed spec fn value(self) -> u32 {
        self.0
    }

    /// The index `index`, if it lies in the non-hardened range.
    pub fn from_index(index: u32) -> (r: Option<Self>)
        ensures
            r is Some <==> index < HARDENED_INDEX_BOUNDARY,
            r matches Some(i) ==> i.value() == index,
    {
        if index < HARDENED_INDEX_BOUNDARY {
            Some(NormalIndex(index))
        } else {
            None
        }
    }

    /// The child number, always below the hardened range.
    pub fn index(&self) -> (r: u32)
        ensures
            r == self.value(),
            r < HARDENED_INDEX_BOUNDARY,
    {
        proof {
            use_type_invariant(self);
        }
        self.0
    }
}

/// One derivation leaf under a descriptor: a keychain and a non-hardened index.
#[derive(Copy, Clone, PartialEq, Eq, Hash, Debug)]
pub struct Terminal {
    pub keychain: u8,
    pub index: NormalIndex,
}

impl Terminal {
    pub fn new(keychain: u8, index: NormalIndex) -> (r: Self)
        ensures
            r.keychain == keychain,
            r.index == index,
    {
        Terminal { keychain, index }
    }
}

/// A compressed secp256k1 public key.
#[derive(Copy, Clone, PartialOrd, Ord, PartialEq, Eq, Hash, Debug)]
pub struct CompressedPk {
    pub bytes: [u8; 33],
}

/// An x-only public key, as Taproot outputs carry it.
#[derive(Copy, Clone, PartialOrd, Ord, PartialEq, Eq, Hash, Debug)]
pub struct XOnlyPk {
    pub bytes: [u8; 32],
}

/// Where an extended key comes from: the master key's fingerprint and the
/// derivation path from the master key to it.
#[derive(Clone, PartialEq, Eq, Hash, Debug)]
pub struct XkeyOrigin {
    pub master_fp: [u8; 4],
    pub path: Vec<u32>,
}

impl View for XkeyOrigin {
    type V = (Seq<u8>, Seq<u32>);

    open spec fn view(&self) -> (Seq<u8>, Seq<u32>) {
        (self.master_fp@, self.path@)
    }
}

impl XkeyOrigin {
    /// An owned copy of the origin.
    pub fn duplicate(&self) -> (r: Self)
        ensures
            r@ == self@,
    {
        let mut path: Vec<u32> = Vec::new();
        let mut i: usize = 0;
        while i < self.path.len()
            invariant
                i <= self.path@.len(),
                path@ == self.path@.subrange(0, i as int),
            decreases self.path@.len() - i,
        {
            path.push(self.path[i]);
            i = i + 1;
        }
        assert(path@ =~= self.path@);
        XkeyOrigin { master_fp: self.master_fp, path }
    }
}

/// An extended public key together with its origin.
#[derive(Clone, PartialEq, Eq, Hash, Debug)]
pub struct XpubSpec {
    pub origin: XkeyOrigin,
    /// The serialized extended public key.
    pub xpub: Vec<u8>,
}

/// The extended key and the leaf that a compressed key was derived from.
#[derive(Clone, PartialEq, Eq, Hash, Debug)]
pub struct KeyOrigin {
    pub origin: XkeyOrigin,
    pub terminal: Terminal,
}

impl View for KeyOrigin {
    type V = ((Seq<u8>, Seq<u32>), Terminal);

    open spec fn view(&self) -> ((Seq<u8>, Seq<u32>), Terminal) {
        (self.origin@, self.terminal)
    }
}

impl KeyOrigin {
    pub fn with(origin: XkeyOrigin, terminal: Terminal) -> (r: Self)
        ensures
            r@ == (origin@, terminal),
    {
        KeyOrigin { origin, terminal }
    }
}

/// The part a Taproot key plays in its output.
#[derive(Copy, Clone, PartialEq, Eq, Hash, Debug)]
pub enum TapKeyRole {
    /// The key-path (internal) key.
    InternalKey,
}

/// The origin of a Taproot key together with its role.
#[derive(Clone, PartialEq, Eq, Hash, Debug)]
pub struct TapDerivation {
    pub role: TapKeyRole,
    pub origin: KeyOrigin,
}

impl View for TapDerivation {
    type V = (TapKeyRole, ((Seq<u8>, Seq<u32>), Terminal));

    open spec fn view(&self) -> (TapKeyRole, ((Seq<u8>, Seq<u32>), Terminal)) {
        (self.role, self.origin@)
    }
}

impl TapDerivation {
    pub fn with_internal_pk(origin: XkeyOrigin, terminal: Terminal) -> (r: Self)
        ensures
            r@ == (TapKeyRole::InternalKey, (origin@, terminal)),
    {
        TapDerivation { role: TapKeyRole::InternalKey, origin: KeyOrigin::with(origin, terminal) }
    }
}

/// A key from which compressed public keys are derived at non-hardened leaves.
pub trait DeriveCompr {
    /// The keychains this key derives under.
    spec fn compr_keychains(&self) -> Range<u8>;

    /// The compressed key derived at `keychain` / `index`.
    spec fn compr_at(&self, keychain: u8, index: NormalIndex) -> CompressedPk;

    /// The extended key and its origin.
    spec fn compr_xpub(&self) -> XpubSpec;

    fn keychains(&self) -> (r: Range<u8>)
        ensures
            r == self.compr_keychains(),
    ;

    fn derive(&self, keychain: u8, index: NormalIndex) -> (r: CompressedPk)
        ensures
            r == self.compr_at(keychain, index),
    ;

    fn xpub_spec(&self) -> (r: &XpubSpec)
        ensures
            *r == self.compr_xpub(),
    ;
}

/// A key from which x-only public keys are derived at non-hardened leaves.
pub trait DeriveXOnly {
    /// The keychains this key derives under.
    spec fn xonly_keychains(&self) -> Range<u8>;

    /// The x-only key derived at `keychain` / `index`.
    spec fn xonly_at(&self, keychain: u8, index: NormalIndex) -> XOnlyPk;

    /// The extended key and its origin.
    spec fn xonly_xpub(&self) -> XpubSpec;

    fn keychains(&self) -> (r: Range<u8>)
        ensures
            r == self.xonly_keychains(),
    ;

    fn derive(&self, keychain: u8, index: NormalIndex) -> (r: XOnlyPk)
        ensures
            r == self.xonly_at(keychain, index),
    ;

    fn xpub_spec(&self) -> (r: &XpubSpec)
        ensures
            *r == self.xonly_xpub(),
    ;
}

/// A key set that offers one key type for each script family, so that one
/// descriptor family can express either template over the same master key.
pub trait DeriveSet {
    type Compr: DeriveCompr;
    type XOnly: DeriveXOnly;
}

#[verifier::external_type_specification]
#[verifier::external_body]
#[verifier::reject_recursive_types(K)]
#[verifier::reject_recursive_types(V)]
#[verifier::reject_recursive_types(S)]
pub struct ExIndexMap<K, V, S>(IndexMap<K, V, S>);

/// The entries of a map of compressed keys to their origins, in map order.
pub uninterp spec fn compr_entries(
    m: IndexMap<CompressedPk, KeyOrigin>,
) -> Seq<(CompressedPk, ((Seq<u8>, Seq<u32>), Terminal))>;

/// The entries of a map of x-only keys to their Taproot derivations, in map
/// order.
pub uninterp spec fn xonly_entries(
    m: IndexMap<XOnlyPk, TapDerivation>,
) -> Seq<(XOnlyPk, (TapKeyRole, ((Seq<u8>, Seq<u32>), Terminal)))>;

/// Relies on `IndexMap::new`: a map with no entries.
#[verifier::external_body]
pub(crate) fn empty_compr_keyset() -> (r: IndexMap<CompressedPk, KeyOrigin>)
    ensures
        compr_entries(r).len() == 0,
{
    IndexMap::new()
}

/// Relies on `IndexMap::insert`: a key that the map does not hold yet is
/// added last, with its value.
#[verifier::external_body]
pub(crate) fn insert_compr_key(
    m: &mut IndexMap<CompressedPk, KeyOrigin>,
    key: CompressedPk,
    value: KeyOrigin,
)
    ensures
        (forall|i: int| 0 <= i < compr_entries(*old(m)).len() ==> compr_entries(*old(m))[i].0 != key)
            ==> compr_entries(*final(m)) == compr_entries(*old(m)).push((key, value@)),
{
    m.insert(key, value);
}

/// Relies on `IndexMap::new`: a map with no entries.
#[verifier::external_body]
pub(crate) fn empty_xonly_keyset() -> (r: IndexMap<XOnlyPk, TapDerivation>)
    ensures
        xonly_entries(r).len() == 0,
{
    IndexMap::new()
}

/// Relies on `IndexMap::insert`: a key that the map does not hold yet is
/// added last, with its value.
#[verifier::external_body]
pub(crate) fn insert_xonly_key(
    m: &mut IndexMap<XOnlyPk, TapDerivation>,
    key: XOnlyPk,
    value: TapDerivation,
)
    ensures
        (forall|i: int| 0 <= i < xonly_entries(*old(m)).len() ==> xonly_entries(*old(m))[i].0 != key)
            ==> xonly_entries(*final(m)) == xonly_entries(*old(m)).push((key, value@)),
{
    m.insert(key, value);
}

} // verus!

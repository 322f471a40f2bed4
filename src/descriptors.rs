use std::ops::Range;

use indexmap::IndexMap;
use vstd::prelude::*;

use crate::keys::{
    compr_entries, empty_compr_keyset, empty_xonly_keyset, insert_compr_key, insert_xonly_key,
    xonly_entries, CompressedPk, DeriveCompr, DeriveSet, DeriveXOnly, KeyOrigin, NormalIndex, TapDerivation,
    TapKeyRole, Terminal, XOnlyPk, XpubSpec,
};

verus! {

/// An output script in a standard form.
#[derive(Copy, Clone, PartialEq, Eq, Hash, Debug)]
pub enum ScriptPubkey {
    /// Pay to the witness public-key hash of this compressed key.
    P2wpkh(CompressedPk),
}

/// The HASH160 (RIPEMD-160 of SHA-256) of a compressed key's bytes.
pub uninterp spec fn key_hash160(key: Seq<u8>) -> Seq<u8>;

/// The 33 bytes are the compressed encoding of a point on the secp256k1 curve.
pub uninterp spec fn is_compressed_point(key: Seq<u8>) -> bool;

/// Relies on `CompressedPk::from_byte_array`, which accepts exactly the bytes
/// of a point on the curve, and on `WPubkeyHash::from`, which hashes the key
/// with HASH160.
#[verifier::external_body]
fn wpubkey_hash(key: &CompressedPk) -> (r: Option<[u8; 20]>)
    ensures
        r is Some <==> is_compressed_point(key.bytes@),
        r matches Some(h) ==> h@ == key_hash160(key.bytes@),
{
    bc::CompressedPk::from_byte_array(key.bytes).ok().map(|pk| <[u8; 20]>::from(bc::WPubkeyHash::from(pk)))
}

/// The witness-version-0 script paying to a 20-byte key hash: `OP_0`, a
/// 20-byte push, the hash.
pub open spec fn p2wpkh_bytes(hash: Seq<u8>) -> Seq<u8> {
    seq![0x00u8, 0x14u8] + hash
}

/// The bytes of the script paying to the key hash `hash`.
pub fn p2wpkh_script(hash: &[u8; 20]) -> (r: Vec<u8>)
    ensures
        r@ == p2wpkh_bytes(hash@),
{
    let mut r: Vec<u8> = Vec::new();
    r.push(0x00);
    r.push(0x14);
    let mut i: usize = 0;
    while i < 20
        invariant
            i <= 20,
            hash@.len() == 20,
            r@ == seq![0x00u8, 0x14u8] + hash@.subrange(0, i as int),
        decreases 20 - i,
    {
        r.push(hash[i]);
        i = i + 1;
        assert(r@ =~= seq![0x00u8, 0x14u8] + hash@.subrange(0, i as int));
    }
    assert(hash@.subrange(0, 20) =~= hash@);
    r
}

impl ScriptPubkey {
    /// The bytes of the script; `None` where the key's bytes are not a point
    /// on the curve.
    pub fn to_bytes(&self) -> (r: Option<Vec<u8>>)
        ensures
            r is Some <==> match self {
                ScriptPubkey::P2wpkh(key) => is_compressed_point(key.bytes@),
            },
            r matches Some(b) ==> match self {
                ScriptPubkey::P2wpkh(key) => b@ == p2wpkh_bytes(key_hash160(key.bytes@)),
            },
    {
        match self {
            ScriptPubkey::P2wpkh(key) => match wpubkey_hash(key) {
                Some(hash) => Some(p2wpkh_script(&hash)),
                None => None,
            },
        }
    }
}

/// What a descriptor gives at one derivation leaf.
#[derive(Copy, Clone, PartialEq, Eq, Hash, Debug)]
pub enum DerivedScript {
    /// An output that is a standard script.
    Bare(ScriptPubkey),
    /// A Taproot output with this output key and no script path.
    TaprootKeyOnly(XOnlyPk),
}

/// The entries of a compressed-key map, as its contents are viewed.
pub type ComprEntries = Seq<(CompressedPk, ((Seq<u8>, Seq<u32>), Terminal))>;

/// The entries of an x-only key map, as its contents are viewed.
pub type XOnlyEntries = Seq<(XOnlyPk, (TapKeyRole, ((Seq<u8>, Seq<u32>), Terminal)))>;

/// Derives output scripts at non-hardened leaves.
pub trait DeriveScripts {
    /// The keychains that scripts are derived under.
    spec fn spec_keychains(&self) -> Range<u8>;

    /// The script at `keychain` / `index`.
    spec fn script_at(&self, keychain: u8, index: NormalIndex) -> DerivedScript;

    fn keychains(&self) -> (r: Range<u8>)
        ensures
            r == self.spec_keychains(),
    ;

    /// The script at `keychain` / `index`: the same on every call.
    fn derive(&self, keychain: u8, index: NormalIndex) -> (r: DerivedScript)
        ensures
            r == self.script_at(keychain, index),
    ;
}

/// What a signer needs to know of a descriptor: its keys, and the key
/// metadata of each leaf.
pub trait Descriptor<K>: DeriveScripts {
    /// The keys the descriptor holds, in order.
    spec fn key_list(&self) -> Seq<K>;

    /// The extended keys the descriptor holds, in order.
    spec fn xpub_list(&self) -> Seq<XpubSpec>;

    /// The compressed keys derived at `terminal`, with their origins.
    spec fn compr_set(&self, terminal: Terminal) -> ComprEntries;

    /// The x-only keys derived at `terminal`, with their derivations.
    spec fn xonly_set(&self, terminal: Terminal) -> XOnlyEntries;

    fn keys(&self) -> (r: Vec<&K>)
        ensures
            r@.len() == self.key_list().len(),
            forall|i: int| 0 <= i < r@.len() ==> *r@[i] == self.key_list()[i],
    ;

    fn vars(&self) -> (r: Vec<()>)
        ensures
            r@.len() == 0,
    ;

    fn xpubs(&self) -> (r: Vec<&XpubSpec>)
        ensures
            r@.len() == self.xpub_list().len(),
            forall|i: int| 0 <= i < r@.len() ==> *r@[i] == self.xpub_list()[i],
    ;

    fn compr_keyset(&self, terminal: Terminal) -> (r: IndexMap<CompressedPk, KeyOrigin>)
        ensures
            compr_entries(r) == self.compr_set(terminal),
    ;

    fn xonly_keyset(&self, terminal: Terminal) -> (r: IndexMap<XOnlyPk, TapDerivation>)
        ensures
            xonly_entries(r) == self.xonly_set(terminal),
    ;
}

/// Pay-to-witness-public-key-hash over one key.
#[derive(Clone, PartialEq, Eq, Hash, Debug)]
pub struct Wpkh<K: DeriveCompr>(pub K);

impl<K: DeriveCompr> Wpkh<K> {
    pub fn as_key(&self) -> (r: &K)
        ensures
            *r == self.0,
    {
        &self.0
    }

    pub fn into_key(self) -> (r: K)
        ensures
            r == self.0,
    {
        self.0
    }
}

impl<K: DeriveCompr> DeriveScripts for Wpkh<K> {
    open spec fn spec_keychains(&self) -> Range<u8> {
        self.0.compr_keychains()
    }

    open spec fn script_at(&self, keychain: u8, index: NormalIndex) -> DerivedScript {
        DerivedScript::Bare(ScriptPubkey::P2wpkh(self.0.compr_at(keychain, index)))
    }

    fn keychains(&self) -> (r: Range<u8>) {
        DeriveCompr::keychains(&self.0)
    }

    fn derive(&self, keychain: u8, index: NormalIndex) -> (r: DerivedScript) {
        let key = DeriveCompr::derive(&self.0, keychain, index);
        DerivedScript::Bare(ScriptPubkey::P2wpkh(key))
    }
}

impl<K: DeriveCompr> Descriptor<K> for Wpkh<K> {
    open spec fn key_list(&self) -> Seq<K> {
        seq![self.0]
    }

    open spec fn xpub_list(&self) -> Seq<XpubSpec> {
        seq![self.0.compr_xpub()]
    }

    open spec fn compr_set(&self, terminal: Terminal) -> ComprEntries {
        seq![
            (
                self.0.compr_at(terminal.keychain, terminal.index),
                (self.0.compr_xpub().origin@, terminal),
            ),
        ]
    }

    open spec fn xonly_set(&self, terminal: Terminal) -> XOnlyEntries {
        Seq::empty()
    }

    fn keys(&self) -> (r: Vec<&K>) {
        let mut r: Vec<&K> = Vec::new();
        r.push(&self.0);
        r
    }

    fn vars(&self) -> (r: Vec<()>) {
        Vec::new()
    }

    fn xpubs(&self) -> (r: Vec<&XpubSpec>) {
        let mut r: Vec<&XpubSpec> = Vec::new();
        r.push(DeriveCompr::xpub_spec(&self.0));
        r
    }

    fn compr_keyset(&self, terminal: Terminal) -> (r: IndexMap<CompressedPk, KeyOrigin>) {
        let mut map = empty_compr_keyset();
        let key = DeriveCompr::derive(&self.0, terminal.keychain, terminal.index);
        let origin = DeriveCompr::xpub_spec(&self.0).origin.duplicate();
        insert_compr_key(&mut map, key, KeyOrigin::with(origin, terminal));
        assert(compr_entries(map) =~= self.compr_set(terminal));
        map
    }

    fn xonly_keyset(&self, terminal: Terminal) -> (r: IndexMap<XOnlyPk, TapDerivation>) {
        let map = empty_xonly_keyset();
        assert(xonly_entries(map) =~= self.xonly_set(terminal));
        map
    }
}

/// Taproot output with a key path only, over one internal key.
#[derive(Clone, PartialEq, Eq, Hash, Debug)]
pub struct TrKey<K: DeriveXOnly>(pub K);

impl<K: DeriveXOnly> TrKey<K> {
    pub fn as_internal_key(&self) -> (r: &K)
        ensures
            *r == self.0,
    {
        &self.0
    }

    pub fn into_internal_key(self) -> (r: K)
        ensures
            r == self.0,
    {
        self.0
    }
}

impl<K: DeriveXOnly> DeriveScripts for TrKey<K> {
    open spec fn spec_keychains(&self) -> Range<u8> {
        self.0.xonly_keychains()
    }

    open spec fn script_at(&self, keychain: u8, index: NormalIndex) -> DerivedScript {
        DerivedScript::TaprootKeyOnly(self.0.xonly_at(keychain, index))
    }

    fn keychains(&self) -> (r: Range<u8>) {
        DeriveXOnly::keychains(&self.0)
    }

    fn derive(&self, keychain: u8, index: NormalIndex) -> (r: DerivedScript) {
        let internal_key = DeriveXOnly::derive(&self.0, keychain, index);
        DerivedScript::TaprootKeyOnly(internal_key)
    }
}

impl<K: DeriveXOnly> Descriptor<K> for TrKey<K> {
    open spec fn key_list(&self) -> Seq<K> {
        seq![self.0]
    }

    open spec fn xpub_list(&self) -> Seq<XpubSpec> {
        seq![self.0.xonly_xpub()]
    }

    open spec fn compr_set(&self, terminal: Terminal) -> ComprEntries {
        Seq::empty()
    }

    open spec fn xonly_set(&self, terminal: Terminal) -> XOnlyEntries {
        seq![
            (
                self.0.xonly_at(terminal.keychain, terminal.index),
                (TapKeyRole::InternalKey, (self.0.xonly_xpub().origin@, terminal)),
            ),
        ]
    }

    fn keys(&self) -> (r: Vec<&K>) {
        let mut r: Vec<&K> = Vec::new();
        r.push(&self.0);
        r
    }

    fn vars(&self) -> (r: Vec<()>) {
        Vec::new()
    }

    fn xpubs(&self) -> (r: Vec<&XpubSpec>) {
        let mut r: Vec<&XpubSpec> = Vec::new();
        r.push(DeriveXOnly::xpub_spec(&self.0));
        r
    }

    fn compr_keyset(&self, terminal: Terminal) -> (r: IndexMap<CompressedPk, KeyOrigin>) {
        let map = empty_compr_keyset();
        assert(compr_entries(map) =~= self.compr_set(terminal));
        map
    }

    fn xonly_keyset(&self, terminal: Terminal) -> (r: IndexMap<XOnlyPk, TapDerivation>) {
        let mut map = empty_xonly_keyset();
        let key = DeriveXOnly::derive(&self.0, terminal.keychain, terminal.index);
        let origin = DeriveXOnly::xpub_spec(&self.0).origin.duplicate();
        insert_xonly_key(&mut map, key, TapDerivation::with_internal_pk(origin, terminal));
        assert(xonly_entries(map) =~= self.xonly_set(terminal));
        map
    }
}

/// The descriptors the wallet supports, over one key type that derives both
/// compressed and x-only keys.
#[derive(Clone, PartialEq, Eq, Hash, Debug)]
pub enum DescriptorStd<S: DeriveSet> {
    Wpkh(Wpkh<S::Compr>),
    TrKey(TrKey<S::XOnly>),
}

impl<S: DeriveSet> DeriveScripts for DescriptorStd<S> {
    open spec fn spec_keychains(&self) -> Range<u8> {
        match self {
            DescriptorStd::Wpkh(d) => d.spec_keychains(),
            DescriptorStd::TrKey(d) => d.spec_keychains(),
        }
    }

    open spec fn script_at(&self, keychain: u8, index: NormalIndex) -> DerivedScript {
        match self {
            DescriptorStd::Wpkh(d) => d.script_at(keychain, index),
            DescriptorStd::TrKey(d) => d.script_at(keychain, index),
        }
    }

    fn keychains(&self) -> (r: Range<u8>) {
        match self {
            DescriptorStd::Wpkh(d) => d.keychains(),
            DescriptorStd::TrKey(d) => d.keychains(),
        }
    }

    fn derive(&self, keychain: u8, index: NormalIndex) -> (r: DerivedScript) {
        match self {
            DescriptorStd::Wpkh(d) => d.derive(keychain, index),
            DescriptorStd::TrKey(d) => d.derive(keychain, index),
        }
    }
}

impl<K: DeriveSet<Compr = K, XOnly = K> + DeriveCompr + DeriveXOnly> Descriptor<K> for DescriptorStd<K> {
    open spec fn key_list(&self) -> Seq<K> {
        match self {
            DescriptorStd::Wpkh(d) => d.key_list(),
            DescriptorStd::TrKey(d) => d.key_list(),
        }
    }

    open spec fn xpub_list(&self) -> Seq<XpubSpec> {
        match self {
            DescriptorStd::Wpkh(d) => d.xpub_list(),
            DescriptorStd::TrKey(d) => d.xpub_list(),
        }
    }

    open spec fn compr_set(&self, terminal: Terminal) -> ComprEntries {
        match self {
            DescriptorStd::Wpkh(d) => d.compr_set(terminal),
            DescriptorStd::TrKey(d) => d.compr_set(terminal),
        }
    }

    open spec fn xonly_set(&self, terminal: Terminal) -> XOnlyEntries {
        match self {
            DescriptorStd::Wpkh(d) => d.xonly_set(terminal),
            DescriptorStd::TrKey(d) => d.xonly_set(terminal),
        }
    }

    fn keys(&self) -> (r: Vec<&K>) {
        match self {
            DescriptorStd::Wpkh(d) => d.keys(),
            DescriptorStd::TrKey(d) => d.keys(),
        }
    }

    fn vars(&self) -> (r: Vec<()>) {
        Vec::new()
    }

    fn xpubs(&self) -> (r: Vec<&XpubSpec>) {
        match self {
            DescriptorStd::Wpkh(d) => d.xpubs(),
            DescriptorStd::TrKey(d) => d.xpubs(),
        }
    }

    fn compr_keyset(&self, terminal: Terminal) -> (r: IndexMap<CompressedPk, KeyOrigin>) {
        match self {
            DescriptorStd::Wpkh(d) => d.compr_keyset(terminal),
            DescriptorStd::TrKey(d) => d.compr_keyset(terminal),
        }
    }

    fn xonly_keyset(&self, terminal: Terminal) -> (r: IndexMap<XOnlyPk, TapDerivation>) {
        match self {
            DescriptorStd::Wpkh(d) => d.xonly_keyset(terminal),
            DescriptorStd::TrKey(d) => d.xonly_keyset(terminal),
        }
    }
}

/// Deriving twice at the same leaf of the same descriptor gives the same
/// script.
pub proof fn lemma_derive_deterministic<D: DeriveScripts>(
    d: D,
    keychain: u8,
    index: NormalIndex,
    first: DerivedScript,
    second: DerivedScript,
)
    requires
        first == d.script_at(keychain, index),
        second == d.script_at(keychain, index),
    ensures
        first == second,
{
}

/// A `Wpkh` descriptor never reports x-only keys, and a `TrKey` descriptor
/// never reports compressed keys, at any leaf.
pub proof fn lemma_keysets_stay_in_script_class<K: DeriveCompr + DeriveXOnly>(
    wpkh: Wpkh<K>,
    tr: TrKey<K>,
    terminal: Terminal,
)
    ensures
        wpkh.xonly_set(terminal).len() == 0,
        tr.compr_set(terminal).len() == 0,
        wpkh.compr_set(terminal).len() == 1,
        tr.xonly_set(terminal).len() == 1,
{
}

/// A `Wpkh` or `TrKey` descriptor holds exactly one key and one extended key.
pub proof fn lemma_single_key<K: DeriveCompr + DeriveXOnly>(wpkh: Wpkh<K>, tr: TrKey<K>)
    ensures
        wpkh.key_list().len() == 1,
        wpkh.xpub_list().len() == 1,
        tr.key_list().len() == 1,
        tr.xpub_list().len() == 1,
{
}

/// Wrapping a `Wpkh` descriptor in `DescriptorStd` changes the result of no
/// operation.
pub proof fn lemma_std_dispatch_wpkh<K: DeriveSet<Compr = K, XOnly = K> + DeriveCompr + DeriveXOnly>(
    d: Wpkh<K>,
)
    ensures
        ({
            let w = DescriptorStd::<K>::Wpkh(d);
            &&& w.spec_keychains() == d.spec_keychains()
            &&& forall|keychain: u8, index: NormalIndex|
                w.script_at(keychain, index) == d.script_at(keychain, index)
            &&& w.key_list() == d.key_list()
            &&& w.xpub_list() == d.xpub_list()
            &&& forall|t: Terminal| w.compr_set(t) == d.compr_set(t)
            &&& forall|t: Terminal| w.xonly_set(t) == d.xonly_set(t)
        }),
{
}

/// Wrapping a `TrKey` descriptor in `DescriptorStd` changes the result of no
/// operation.
pub proof fn lemma_std_dispatch_tr_key<K: DeriveSet<Compr = K, XOnly = K> + DeriveCompr + DeriveXOnly>(
    d: TrKey<K>,
)
    ensures
        ({
            let w = DescriptorStd::<K>::TrKey(d);
            &&& w.spec_keychains() == d.spec_keychains()
            &&& forall|keychain: u8, index: NormalIndex|
                w.script_at(keychain, index) == d.script_at(keychain, index)
            &&& w.key_list() == d.key_list()
            &&& w.xpub_list() == d.xpub_list()
            &&& forall|t: Terminal| w.compr_set(t) == d.compr_set(t)
            &&& forall|t: Terminal| w.xonly_set(t) == d.xonly_set(t)
        }),
{
}

} // verus!

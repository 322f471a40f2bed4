use std::ops::Range;

use bp_std::descriptors::{
    p2wpkh_script, Descriptor, DeriveScripts, DerivedScript, DescriptorStd, ScriptPubkey, TrKey,
    Wpkh,
};
use bp_std::keys::{
    CompressedPk, DeriveCompr, DeriveSet, DeriveXOnly, NormalIndex, TapKeyRole, Terminal, XOnlyPk,
    XkeyOrigin, XpubSpec,
};

#[derive(Clone, PartialEq, Eq, Hash, Debug)]
struct TestKey {
    seed: u8,
    xpub: XpubSpec,
}

fn test_key(seed: u8) -> TestKey {
    TestKey {
        seed,
        xpub: XpubSpec {
            origin: XkeyOrigin { master_fp: [seed, 1, 2, 3], path: vec![0x8000_0054, 0x8000_0000] },
            xpub: vec![seed; 78],
        },
    }
}

impl DeriveCompr for TestKey {
    fn compr_keychains(&self) -> Range<u8> {
        DeriveCompr::keychains(self)
    }

    fn compr_at(&self, keychain: u8, index: NormalIndex) -> CompressedPk {
        DeriveCompr::derive(self, keychain, index)
    }

    fn compr_xpub(&self) -> XpubSpec {
        self.xpub.clone()
    }

    fn keychains(&self) -> Range<u8> {
        0..2
    }

    fn derive(&self, keychain: u8, index: NormalIndex) -> CompressedPk {
        let mut bytes = [0u8; 33];
        bytes[0] = 2;
        bytes[1] = self.seed;
        bytes[2] = keychain;
        bytes[3..7].copy_from_slice(&index.index().to_be_bytes());
        CompressedPk { bytes }
    }

    fn xpub_spec(&self) -> &XpubSpec {
        &self.xpub
    }
}

impl DeriveXOnly for TestKey {
    fn xonly_keychains(&self) -> Range<u8> {
        DeriveXOnly::keychains(self)
    }

    fn xonly_at(&self, keychain: u8, index: NormalIndex) -> XOnlyPk {
        DeriveXOnly::derive(self, keychain, index)
    }

    fn xonly_xpub(&self) -> XpubSpec {
        self.xpub.clone()
    }

    fn keychains(&self) -> Range<u8> {
        0..3
    }

    fn derive(&self, keychain: u8, index: NormalIndex) -> XOnlyPk {
        let mut bytes = [0u8; 32];
        bytes[0] = self.seed;
        bytes[1] = keychain;
        bytes[2..6].copy_from_slice(&index.index().to_be_bytes());
        XOnlyPk { bytes }
    }

    fn xpub_spec(&self) -> &XpubSpec {
        &self.xpub
    }
}

impl DeriveSet for TestKey {
    type Compr = TestKey;
    type XOnly = TestKey;
}

fn idx(i: u32) -> NormalIndex {
    NormalIndex::from_index(i).unwrap()
}

#[test]
fn normal_index_range() {
    assert!(NormalIndex::from_index(0x8000_0000).is_none());
    assert_eq!(NormalIndex::from_index(0x7FFF_FFFF).unwrap().index(), 0x7FFF_FFFF);
    let t = Terminal::new(1, idx(7));
    assert_eq!(t.keychain, 1);
    assert_eq!(t.index.index(), 7);
}

#[test]
fn wpkh_derive_is_deterministic() {
    let d = Wpkh(test_key(5));
    for keychain in 0..2u8 {
        for i in [0u32, 1, 100, 0x7FFF_FFFF] {
            assert_eq!(d.derive(keychain, idx(i)), d.derive(keychain, idx(i)));
        }
    }
    let expected = DeriveCompr::derive(&test_key(5), 1, idx(9));
    assert_eq!(d.derive(1, idx(9)), DerivedScript::Bare(ScriptPubkey::P2wpkh(expected)));
    assert_eq!(d.keychains(), 0..2);
}

#[test]
fn tr_key_derive_is_deterministic() {
    let d = TrKey(test_key(6));
    assert_eq!(d.derive(0, idx(3)), d.derive(0, idx(3)));
    let expected = DeriveXOnly::derive(&test_key(6), 0, idx(3));
    assert_eq!(d.derive(0, idx(3)), DerivedScript::TaprootKeyOnly(expected));
    assert_ne!(d.derive(0, idx(3)), d.derive(0, idx(4)));
    assert_eq!(d.keychains(), 0..3);
}

#[test]
fn wpkh_keysets() {
    let key = test_key(7);
    let d = Wpkh(key.clone());
    let t = Terminal::new(0, idx(11));
    assert!(d.xonly_keyset(t).is_empty());
    let map = d.compr_keyset(t);
    assert_eq!(map.len(), 1);
    let (pk, origin) = map.get_index(0).unwrap();
    assert_eq!(*pk, DeriveCompr::derive(&key, 0, idx(11)));
    assert_eq!(origin.origin, key.xpub.origin);
    assert_eq!(origin.terminal, t);
    assert_eq!(d.compr_keyset(t), map);
}

#[test]
fn tr_key_keysets() {
    let key = test_key(8);
    let d = TrKey(key.clone());
    let t = Terminal::new(1, idx(2));
    assert!(d.compr_keyset(t).is_empty());
    let map = d.xonly_keyset(t);
    assert_eq!(map.len(), 1);
    let (pk, derivation) = map.get_index(0).unwrap();
    assert_eq!(*pk, DeriveXOnly::derive(&key, 1, idx(2)));
    assert_eq!(derivation.role, TapKeyRole::InternalKey);
    assert_eq!(derivation.origin.origin, key.xpub.origin);
    assert_eq!(derivation.origin.terminal, t);
}

#[test]
fn single_key_templates() {
    let key = test_key(9);
    let w = Wpkh(key.clone());
    let keys = w.keys();
    assert_eq!(keys.len(), 1);
    assert_eq!(*keys[0], key);
    assert_eq!(w.xpubs(), vec![&key.xpub]);
    assert!(w.vars().is_empty());
    let tr = TrKey(key.clone());
    assert_eq!(tr.keys(), vec![&key]);
    assert_eq!(tr.xpubs(), vec![&key.xpub]);
    assert!(tr.vars().is_empty());
    assert_eq!(w.as_key(), &key);
    assert_eq!(tr.as_internal_key(), &key);
    assert_eq!(w.into_key(), key);
    assert_eq!(tr.into_internal_key(), key);
}

#[test]
fn std_dispatch_matches_wpkh() {
    let d = Wpkh(test_key(10));
    let s: DescriptorStd<TestKey> = DescriptorStd::Wpkh(d.clone());
    let t = Terminal::new(1, idx(42));
    assert_eq!(s.derive(1, idx(42)), d.derive(1, idx(42)));
    assert_eq!(s.keychains(), d.keychains());
    assert_eq!(s.keys(), d.keys());
    assert_eq!(s.xpubs(), d.xpubs());
    assert_eq!(s.compr_keyset(t), d.compr_keyset(t));
    assert_eq!(s.xonly_keyset(t), d.xonly_keyset(t));
    assert!(s.vars().is_empty());
}

#[test]
fn std_dispatch_matches_tr_key() {
    let d = TrKey(test_key(11));
    let s: DescriptorStd<TestKey> = DescriptorStd::TrKey(d.clone());
    let t = Terminal::new(2, idx(0));
    assert_eq!(s.derive(2, idx(0)), d.derive(2, idx(0)));
    assert_eq!(s.keychains(), d.keychains());
    assert_eq!(s.keys(), d.keys());
    assert_eq!(s.xpubs(), d.xpubs());
    assert_eq!(s.compr_keyset(t), d.compr_keyset(t));
    assert_eq!(s.xonly_keyset(t), d.xonly_keyset(t));
}

#[test]
fn origin_duplicate_is_equal() {
    let o = XkeyOrigin { master_fp: [1, 2, 3, 4], path: vec![1, 2, 0x8000_0000] };
    assert_eq!(o.duplicate(), o);
}

#[test]
fn p2wpkh_script_bytes() {
    let mut g = [0u8; 33];
    let hex = "0279be667ef9dcbbac55a06295ce870b07029bfcdb2dce28d959f2815b16f81798";
    for i in 0..33 {
        g[i] = u8::from_str_radix(&hex[2 * i..2 * i + 2], 16).unwrap();
    }
    let script = ScriptPubkey::P2wpkh(CompressedPk { bytes: g });
    let expected_hex = "0014751e76e8199196d454941c45d1b3a323f1433bd6";
    let expected: Vec<u8> = (0..22)
        .map(|i| u8::from_str_radix(&expected_hex[2 * i..2 * i + 2], 16).unwrap())
        .collect();
    assert_eq!(script.to_bytes(), Some(expected));
    let invalid = ScriptPubkey::P2wpkh(CompressedPk { bytes: [0u8; 33] });
    assert_eq!(invalid.to_bytes(), None);
}

#[test]
fn p2wpkh_script_layout() {
    let hash = [7u8; 20];
    let bytes = p2wpkh_script(&hash);
    assert_eq!(bytes.len(), 22);
    assert_eq!(&bytes[..2], &[0x00, 0x14]);
    assert_eq!(&bytes[2..], &hash);
}

//! Child key derivation along a derivation path.
use crate::bytes::{be_bytes, is_valid_secret_key, u32_to_be, valid_secret_key};
use crate::primitives::{
    hmac_sha512, hmac_sha512_tag, public_key_compressed,
    secp256k1_public_key_compressed,
};
use crate::wallet::hmac_sha512::{
    add_keys_mod_order, fingerprint_child, lemma_key_pair_lengths, KeyPair, KeyPairView,
};
use vstd::prelude::*;

verus! {

broadcast use lemma_key_pair_lengths;

/// One level of a derivation path: a child index below `2^31`, normal or hardened.
#[derive(Clone, Copy, Debug)]
pub enum ChildType {
    Normal(u32),
    Hardened(u32),
}

impl ChildType {
    /// A hardened level must carry an index below `2^31`.
    pub open spec fn wf(self) -> bool {
        match self {
            ChildType::Normal(_) => true,
            ChildType::Hardened(v) => v < 0x8000_0000,
        }
    }

    /// The 32-bit child number: hardened indices are offset by `2^31`.
    pub open spec fn index(self) -> nat {
        match self {
            ChildType::Normal(v) => v as nat,
            ChildType::Hardened(v) => (v + 0x8000_0000) as nat,
        }
    }

    pub fn hardened(num: u32) -> (c: Self)
        requires
            num < 0x8000_0000,
        ensures
            c == ChildType::Hardened(num),
    {
        ChildType::Hardened(Self::check_size(num))
    }

    pub fn normal(num: u32) -> (c: Self)
        requires
            num < 0x8000_0000,
        ensures
            c == ChildType::Normal(num),
    {
        ChildType::Normal(Self::check_size(num))
    }

    /// A child index must leave bit 31 clear.
    fn check_size(num: u32) -> (r: u32)
        requires
            num < 0x8000_0000,
        ensures
            r == num,
    {
        if num & (1u32 << 31u32) == 0 {
            num
        } else {
            proof {
                assert(num & (1u32 << 31u32) == 0) by (bit_vector)
                    requires
                        num < 0x8000_0000u32,
                ;
            }
            num
        }
    }

    pub fn get_value(&self) -> (v: u32)
        requires
            self.wf(),
        ensures
            v == self.index(),
    {
        match self {
            ChildType::Normal(value) => *value,
            ChildType::Hardened(value) => *value + 0x8000_0000,
        }
    }
}

/// The derivation paths that this wallet knows.
pub enum DerivationPath {
    Ethereum,  // Derivation path for nets like ETH, Bsc, Arb is m/44'/60'/0'/0/0.
    NoPath,  // No derivation path.
}

/// The five levels of a BIP-44 path.
#[derive(Clone, Copy, Debug)]
pub struct DerivationPathStruct {
    purpose: ChildType,
    coin: ChildType,
    account: ChildType,
    change: ChildType,
    address: ChildType,
}

/// `m/44'/60'/0'/0/0`.
pub open spec fn ethereum_levels() -> Seq<ChildType> {
    seq![
        ChildType::Hardened(44),
        ChildType::Hardened(60),
        ChildType::Hardened(0),
        ChildType::Normal(0),
        ChildType::Normal(0),
    ]
}

impl DerivationPathStruct {
    /// The levels, purpose first.
    pub closed spec fn levels(&self) -> Seq<ChildType> {
        seq![self.purpose, self.coin, self.account, self.change, self.address]
    }

    #[verifier::type_invariant]
    closed spec fn levels_wf(&self) -> bool {
        &&& self.purpose.wf()
        &&& self.coin.wf()
        &&& self.account.wf()
        &&& self.change.wf()
        &&& self.address.wf()
    }
}

impl DerivationPath {
    pub fn new(self) -> (path: Option<DerivationPathStruct>)
        ensures
            self is Ethereum ==> (path matches Some(p) && p.levels() == ethereum_levels()),
            self is NoPath ==> path is None,
    {
        match self {
            DerivationPath::Ethereum => {
                let p = DerivationPathStruct {
                    purpose: ChildType::hardened(44),
                    coin: ChildType::hardened(60),
                    account: ChildType::hardened(0),
                    change: ChildType::normal(0),
                    address: ChildType::normal(0),
                };
                proof {
                    assert(p.levels() =~= ethereum_levels());
                }
                Option::Some(p)
            },
            DerivationPath::NoPath => Option::None,
        }
    }
}

/// The state of a derivation: the current key pair and the path level that
/// the next derivation step uses.
pub struct DeriveChildView {
    pub keypair: KeyPairView,
    pub path: ChildType,
}

/// The bytes that the HMAC of one derivation step covers: the compressed
/// public key for a normal level, `0x00` and the private key for a hardened
/// one, then the child number, big-endian.
pub open spec fn child_data(kp: KeyPairView, path: ChildType) -> Seq<u8> {
    let key_part = match path {
        ChildType::Normal(_) => secp256k1_public_key_compressed(kp.private_key),
        ChildType::Hardened(_) => seq![0u8] + kp.private_key,
    };
    key_part + be_bytes(path.index(), 4)
}

/// One derivation step: the child key pair from HMAC-SHA512 under the chain
/// code, and the parent's fingerprint as the new path level.
pub open spec fn child_step(d: DeriveChildView) -> DeriveChildView {
    let tag = hmac_sha512_tag(d.keypair.chain_code, child_data(d.keypair, d.path));
    DeriveChildView {
        keypair: KeyPairView {
            private_key: add_keys_mod_order(tag.subrange(0, 32), d.keypair.private_key),
            chain_code: tag.subrange(32, 64),
        },
        path: fingerprint_child(d.keypair.private_key),
    }
}

/// The state with another path level.
pub open spec fn with_path(d: DeriveChildView, path: ChildType) -> DeriveChildView {
    DeriveChildView { keypair: d.keypair, path }
}

/// Setting each level in turn and deriving once per level.
pub open spec fn derive_levels(d: DeriveChildView, levels: Seq<ChildType>) -> DeriveChildView
    decreases levels.len(),
{
    if levels.len() == 0 {
        d
    } else {
        child_step(with_path(derive_levels(d, levels.drop_last()), levels.last()))
    }
}

/// Every step of `derive_levels` starts from a valid secret key and a well-formed level.
pub open spec fn levels_derivable(d: DeriveChildView, levels: Seq<ChildType>) -> bool
    decreases levels.len(),
{
    levels.len() == 0 || {
        &&& levels_derivable(d, levels.drop_last())
        &&& valid_secret_key(derive_levels(d, levels.drop_last()).keypair.private_key)
        &&& levels.last().wf()
    }
}

/// Derives child keys along a path.
#[derive(Debug, Clone)]
pub struct DeriveChild {
    keypair: KeyPair,
    parent_fp: ChildType,
}

impl View for DeriveChild {
    type V = DeriveChildView;

    closed spec fn view(&self) -> DeriveChildView {
        DeriveChildView { keypair: self.keypair@, path: self.parent_fp }
    }
}

impl DeriveChild {
    pub fn new(keypair: KeyPair) -> (d: Self)
        ensures
            d@ == (DeriveChildView { keypair: keypair@, path: ChildType::Normal(0) }),
    {
        let parent_fp = ChildType::normal(0);
        DeriveChild { keypair, parent_fp }
    }

    pub fn get_keypair(&self) -> (kp: &KeyPair)
        ensures
            kp@ == self@.keypair,
    {
        &self.keypair
    }

    pub fn change_kp(&mut self, keypair: KeyPair)
        ensures
            final(self)@ == (DeriveChildView { keypair: keypair@, path: old(self)@.path }),
    {
        self.keypair = keypair;
    }

    pub fn change_path(&mut self, path: &ChildType)
        ensures
            final(self)@ == with_path(old(self)@, *path),
    {
        self.parent_fp = *path;
    }

    /// One derivation step from the current key pair and path level.
    pub fn derivate_child(&mut self)
        requires
            valid_secret_key(old(self)@.keypair.private_key),
            old(self)@.path.wf(),
        ensures
            final(self)@ == child_step(old(self)@),
    {
        let mut data: Vec<u8> = Vec::new();
        // Verify if the child to be generated is or isn't a hardened.
        match &self.parent_fp {
            ChildType::Normal(_value) => {
                let pk = public_key_compressed(self.get_keypair().get_pk());
                data.extend_from_slice(pk.as_slice());
            },
            ChildType::Hardened(_value) => {
                data.push(0x00);
                data.extend_from_slice(self.get_keypair().get_pk().as_slice());
            },
        }
        // Concatenate the child number to the data.
        let number = u32_to_be(self.parent_fp.get_value());
        data.extend_from_slice(number.as_slice());
        proof {
            assert(data@ =~= child_data(self@.keypair, self@.path));
        }
        let tag = hmac_sha512(self.get_keypair().get_cc().as_slice(), data.as_slice());
        let aux_private_key = crate::bytes::array32_at(tag.as_slice(), 0);
        let child_chain_code = crate::bytes::array32_at(tag.as_slice(), 32);
        // Calculate child private key from secp256k1 curve.
        let child_calc_pk = self.get_keypair().childpk_from_secp256k1(&aux_private_key);
        // The parent fingerprint becomes the path level of the child.
        let parent_fp = self.get_keypair().parent_fingerprint();
        let keypair = KeyPair::new_ack(child_calc_pk, child_chain_code);
        self.change_kp(keypair);
        self.change_path(&parent_fp);
    }

    /// Derives along every level of `paths` but the last.
    pub fn path_derivation(&mut self, paths: &DerivationPathStruct) -> (d: &DeriveChild)
        requires
            levels_derivable(old(self)@, paths.levels().take(4)),
        ensures
            final(self)@ == derive_levels(old(self)@, paths.levels().take(4)),
            d@ == final(self)@,
    {
        let mut paths_in: Vec<ChildType> = Vec::new();
        paths_in.push(paths.purpose);
        paths_in.push(paths.coin);
        paths_in.push(paths.account);
        paths_in.push(paths.change);
        paths_in.push(paths.address);
        proof {
            assert(paths_in@ =~= paths.levels());
        }
        let ghost start = self@;
        let last = paths_in.len() - 1;
        let mut i: usize = 0;
        while i < last
            invariant
                last == 4,
                paths_in@ == paths.levels(),
                0 <= i <= last,
                levels_derivable(start, paths.levels().take(4)),
                self@ == derive_levels(start, paths.levels().take(i as int)),
            decreases last - i,
        {
            proof {
                lemma_derivable_prefix(start, paths.levels().take(4), i as int + 1);
                assert(paths.levels().take(4).take(i as int + 1) =~= paths.levels().take(
                    i as int + 1,
                ));
                assert(paths.levels().take(i as int + 1).drop_last() =~= paths.levels().take(
                    i as int,
                ));
            }
            self.change_path(&paths_in[i]);
            self.derivate_child();
            i += 1;
        }
        self
    }

    /// Derives along every level of `paths` but the last when every step is
    /// defined; otherwise reports `false` and leaves the state as it was.
    pub fn try_path_derivation(&mut self, paths: &DerivationPathStruct) -> (derived: bool)
        ensures
            derived == levels_derivable(old(self)@, paths.levels().take(4)),
            derived ==> final(self)@ == derive_levels(old(self)@, paths.levels().take(4)),
            !derived ==> final(self)@ == old(self)@,
    {
        proof {
            use_type_invariant(paths);
        }
        let mut probe = DeriveChild { keypair: self.keypair, parent_fp: self.parent_fp };
        let levels = [paths.purpose, paths.coin, paths.account, paths.change];
        let ghost start = self@;
        let ghost ls = paths.levels().take(4);
        proof {
            assert(levels@ =~= ls);
            assert(ls.take(0) =~= Seq::<ChildType>::empty());
        }
        let mut i: usize = 0;
        while i < 4
            invariant
                0 <= i <= 4,
                levels@ == ls,
                ls == paths.levels().take(4),
                start == old(self)@,
                ls.len() == 4,
                self@ == start,
                forall|q: int| 0 <= q < 4 ==> #[trigger] ls[q].wf(),
                levels_derivable(start, ls.take(i as int)),
                probe@ == derive_levels(start, ls.take(i as int)),
            decreases 4 - i,
        {
            let ok = is_valid_secret_key(probe.keypair.get_pk());
            proof {
                assert(ls.take(i as int + 1).drop_last() =~= ls.take(i as int));
                assert(ls.take(i as int + 1).last() == ls[i as int]);
            }
            if !ok {
                proof {
                    lemma_derivable_extends(start, ls, i as int);
                }
                return false;
            }
            probe.change_path(&levels[i]);
            probe.derivate_child();
            i += 1;
        }
        proof {
            assert(ls.take(4) =~= ls);
        }
        self.path_derivation(paths);
        true
    }

    /// The child at normal index `n` of the key pair of `frompath`.
    pub fn wllt_derivation(frompath: &DeriveChild, n: u32) -> (child: DeriveChild)
        requires
            valid_secret_key(frompath@.keypair.private_key),
        ensures
            child@ == child_step(with_path(frompath@, ChildType::Normal(n))),
    {
        let mut copy: DeriveChild = DeriveChild::new(*frompath.get_keypair());
        copy.change_path(&ChildType::Normal(n));
        copy.derivate_child();
        copy
    }
}

/// A prefix of a derivable sequence of levels is derivable.
pub proof fn lemma_derivable_prefix(d: DeriveChildView, levels: Seq<ChildType>, k: int)
    requires
        levels_derivable(d, levels),
        0 <= k <= levels.len(),
    ensures
        levels_derivable(d, levels.take(k)),
    decreases levels.len(),
{
    if k < levels.len() {
        assert(levels.drop_last().take(k) =~= levels.take(k));
        lemma_derivable_prefix(d, levels.drop_last(), k);
    } else {
        assert(levels.take(k) =~= levels);
    }
}

/// If the key reached after `i` levels is not a valid secret key, no longer
/// prefix, and in particular not the whole sequence, is derivable.
pub proof fn lemma_derivable_extends(d: DeriveChildView, levels: Seq<ChildType>, i: int)
    requires
        0 <= i < levels.len(),
        !valid_secret_key(derive_levels(d, levels.take(i)).keypair.private_key),
    ensures
        !levels_derivable(d, levels),
{
    if levels_derivable(d, levels) {
        lemma_derivable_prefix(d, levels, i + 1);
        assert(levels.take(i + 1).drop_last() =~= levels.take(i));
    }
}

} // verus!

//! Properties of the wallet logic that hold for every input.
use crate::bytes::{
    be_value, curve_order, hex_digit, hex_lower, lemma_be_bytes_value, lemma_curve_order_bounds,
    valid_secret_key,
};
use crate::bytes::{be_bytes, pow256};
use crate::primitives::{bip39_english_phrase, secp256k1_public_key_compressed};
use crate::wallet::derivation_path::child_data;
use crate::wallet::derivation_path::DeriveChild;
use crate::wallet::ethereum::eth_wallet::ETHWallet;
use crate::wallets::{account_state, child_key, eth_wallet_outcome, wallet_derivable, wallet_of};
use crate::settings::WlltmngrSettingsView;
use crate::time::{clock_at, clock_in_range, clock_total, Clock};
use crate::wallet::derivation_path::{ethereum_levels, ChildType};
use crate::wallet::entropy::{supported_mnemonic_size, words_size_of, WordsSize};
use crate::wallet::hmac_sha512::{
    add_keys_mod_order, fingerprint_child, fingerprint_value, mainnet_private_version,
    root_key_payload, KeyPairView,
};
use crate::primitives::valid_entropy_len;
use vstd::arithmetic::div_mod::lemma_mod_bound;
use vstd::prelude::*;

verus! {

/// A hardened child number and a normal child number never coincide when
/// both indices are below `2^31`.
pub proof fn law_hardened_and_normal_numbers_differ(a: u32, b: u32)
    requires
        a < 0x8000_0000,
        b < 0x8000_0000,
    ensures
        ChildType::Hardened(a).index() != ChildType::Normal(b).index(),
        ChildType::Hardened(a).index() == a + 0x8000_0000,
        ChildType::Normal(b).index() == b,
{
}

/// Recording a fingerprint as a child level loses nothing: the level is well
/// formed and its child number is the fingerprint itself.
pub proof fn law_fingerprint_level_round_trip(secret: Seq<u8>)
    ensures
        fingerprint_child(secret).wf(),
        fingerprint_child(secret).index() == fingerprint_value(secret),
{
    let v = fingerprint_value(secret);
    assert(v < 0x1_0000_0000);
}

/// A derived private key is the sum of the tweak and the parent key modulo
/// the group order, written in 32 bytes; it is a valid secret key exactly
/// when that sum is not a multiple of the order.
pub proof fn law_child_key_is_sum_mod_order(tweak: Seq<u8>, parent: Seq<u8>)
    ensures
        add_keys_mod_order(tweak, parent).len() == 32,
        be_value(add_keys_mod_order(tweak, parent)) == (be_value(tweak) + be_value(parent))
            % curve_order(),
        be_value(add_keys_mod_order(tweak, parent)) < curve_order(),
        valid_secret_key(add_keys_mod_order(tweak, parent)) <==> (be_value(tweak) + be_value(
            parent,
        )) % curve_order() != 0,
{
    lemma_curve_order_bounds();
    let x = (be_value(tweak) + be_value(parent)) % curve_order();
    lemma_mod_bound((be_value(tweak) + be_value(parent)) as int, curve_order() as int);
    lemma_be_bytes_value(x, 32);
}

/// The Ethereum path is `m/44'/60'/0'/0/0`: child numbers `2^31 + 44`,
/// `2^31 + 60`, `2^31`, `0`, `0`, every level well formed.
pub proof fn law_ethereum_path_numbers()
    ensures
        ethereum_levels().len() == 5,
        ethereum_levels()[0].index() == 0x8000_002C,
        ethereum_levels()[1].index() == 0x8000_003C,
        ethereum_levels()[2].index() == 0x8000_0000,
        ethereum_levels()[3].index() == 0,
        ethereum_levels()[4].index() == 0,
        forall|i: int| 0 <= i < 5 ==> #[trigger] ethereum_levels()[i].wf(),
{
}

/// Each mnemonic size draws a BIP-39 entropy length, and its words carry the
/// entropy bits plus one checksum bit per 32 of them, 11 bits per word.
pub proof fn law_words_size_entropy(s: WordsSize)
    ensures
        valid_entropy_len(s.byte_len()),
        s.byte_len() * 3 / 4 == s.word_count(),
        s.byte_len() * 8 + s.byte_len() * 8 / 32 == s.word_count() * 11,
{
}

/// A configured word count is honoured exactly when BIP-39 defines it;
/// every other count yields twelve words.
pub proof fn law_mnemonic_size_setting(w_size: usize)
    ensures
        supported_mnemonic_size(w_size) <==> words_size_of(w_size).word_count() == w_size,
        !supported_mnemonic_size(w_size) ==> words_size_of(w_size).word_count() == 12,
{
}

/// Hex text has two digits per byte: the high nibble, then the low one.
pub proof fn law_hex_text(s: Seq<u8>)
    ensures
        hex_lower(s).len() == 2 * s.len(),
        forall|i: int|
            0 <= i < s.len() ==> hex_lower(s)[2 * i] == hex_digit(#[trigger] s[i] as nat / 16)
                && hex_lower(s)[2 * i + 1] == hex_digit(s[i] as nat % 16),
    decreases s.len(),
{
    if s.len() > 0 {
        let sd = s.drop_last();
        law_hex_text(sd);
        assert forall|i: int| 0 <= i < s.len() implies hex_lower(s)[2 * i] == hex_digit(
            #[trigger] s[i] as nat / 16,
        ) && hex_lower(s)[2 * i + 1] == hex_digit(s[i] as nat % 16) by {
            if i < sd.len() {
                assert(sd[i] == s[i]);
            }
        }
    }
}

/// The extended root key encodes 78 bytes: version, nine zero bytes (depth,
/// parent fingerprint, child number), chain code, a zero byte, private key.
pub proof fn law_root_key_payload_layout(kp: KeyPairView)
    requires
        kp.private_key.len() == 32,
        kp.chain_code.len() == 32,
    ensures
        root_key_payload(kp).len() == 78,
        root_key_payload(kp).subrange(0, 4) == mainnet_private_version(),
        forall|i: int| 4 <= i < 13 ==> #[trigger] root_key_payload(kp)[i] == 0,
        root_key_payload(kp).subrange(13, 45) == kp.chain_code,
        root_key_payload(kp)[45] == 0,
        root_key_payload(kp).subrange(46, 78) == kp.private_key,
{
    let p = root_key_payload(kp);
    assert(p.subrange(0, 4) =~= mainnet_private_version());
    assert(p.subrange(13, 45) =~= kp.chain_code);
    assert(p.subrange(46, 78) =~= kp.private_key);
}

/// The clock reading of any moment is a time of day whose millisecond total
/// fits, so the latency between two readings is defined when they are in order.
pub proof fn law_clock_reading_in_range(since_epoch_secs: u64, subsec_millis: u32)
    requires
        subsec_millis < 1000,
    ensures
        clock_at(since_epoch_secs, subsec_millis).hours < 24,
        clock_at(since_epoch_secs, subsec_millis).minutes < 60,
        clock_at(since_epoch_secs, subsec_millis).seconds < 60,
        clock_in_range(clock_at(since_epoch_secs, subsec_millis)),
        clock_total(clock_at(since_epoch_secs, subsec_millis)) < 60000,
{
}

/// Latencies add up along three readings, and a reading has no latency to itself.
pub proof fn law_latency_adds_up(c1: Clock, c2: Clock, c3: Clock)
    requires
        clock_total(c1) <= clock_total(c2) <= clock_total(c3),
    ensures
        (clock_total(c3) - clock_total(c1)) == (clock_total(c2) - clock_total(c1)) + (
        clock_total(c3) - clock_total(c2)),
        clock_total(c1) - clock_total(c1) == 0,
{
}

/// Each setter of the wallet manager settings changes its own field, which
/// then reads back as written, and leaves every other field as it was.
pub proof fn law_settings_read_back(s: WlltmngrSettingsView, n: usize, b: bool)
    ensures
        (WlltmngrSettingsView { n_wallets: n, ..s }).n_wallets == n,
        (WlltmngrSettingsView { mnemonic_size: n, ..s }).mnemonic_size == n,
        (WlltmngrSettingsView { n_child: n, ..s }).n_child == n,
        (WlltmngrSettingsView { is_loaded: b, ..s }).is_loaded == b,
        (WlltmngrSettingsView { n_wallets: n, ..s }).wallets == s.wallets,
        (WlltmngrSettingsView { n_child: n, ..s }).mnemonic_size == s.mnemonic_size,
        (WlltmngrSettingsView { mnemonic_size: n, ..s }).n_wallets == s.n_wallets,
{
}

/// The master account of a generated wallet is the child at index 0 of the
/// derivation state that comes with it, as `child_wallet` derives it.
pub proof fn law_master_wallet_is_child_zero(
    entropy: Seq<u8>,
    r: Option<(DeriveChild, String, usize, ETHWallet)>,
)
    requires
        eth_wallet_outcome(entropy, r),
    ensures
        r matches Some(t) ==> wallet_of(t.3, child_key(t.0@, 0)),
        r matches Some(t) ==> valid_secret_key(t.0@.keypair.private_key),
{
}

/// A wallet is recovered from its mnemonic: two entropies with the same
/// phrase derive the same account state and the same accounts, and one is
/// derivable exactly when the other is.
pub proof fn law_wallet_determined_by_mnemonic(e1: Seq<u8>, e2: Seq<u8>, index: u32)
    requires
        bip39_english_phrase(e1) == bip39_english_phrase(e2),
    ensures
        account_state(e1) == account_state(e2),
        child_key(account_state(e1), index) == child_key(account_state(e2), index),
        wallet_derivable(e1) <==> wallet_derivable(e2),
{
}

/// The data that a derivation step authenticates ends with the child number
/// as four big-endian bytes (BIP-32 `ser32`), the whole 32-bit number; before
/// it stands the compressed public key for a normal level, and `0x00` and the
/// private key for a hardened one.
pub proof fn law_child_data_ends_with_child_number(kp: KeyPairView, level: ChildType)
    requires
        level.wf(),
    ensures
        child_data(kp, level).len() >= 4,
        be_value(
            child_data(kp, level).subrange(
                child_data(kp, level).len() - 4,
                child_data(kp, level).len() as int,
            ),
        ) == level.index(),
        level is Normal ==> child_data(kp, level).subrange(0, child_data(kp, level).len() - 4)
            == secp256k1_public_key_compressed(kp.private_key),
        level is Hardened ==> child_data(kp, level).subrange(
            0,
            child_data(kp, level).len() - 4,
        ) == seq![0u8] + kp.private_key,
{
    let data = child_data(kp, level);
    let n = data.len();
    let number = be_bytes(level.index(), 4);
    lemma_be_bytes_value(level.index(), 4);
    assert(pow256(4) == 0x1_0000_0000) by {
        reveal_with_fuel(pow256, 5);
    }
    assert(level.index() < 0x1_0000_0000);
    assert(number.len() == 4);
    assert(data.subrange(n - 4, n as int) =~= number);
    if level is Normal {
        assert(data.subrange(0, n - 4) =~= secp256k1_public_key_compressed(kp.private_key));
    } else {
        assert(data.subrange(0, n - 4) =~= seq![0u8] + kp.private_key);
    }
}

/// Two levels with different child numbers make a derivation step
/// authenticate different data, whatever the key pair: in particular the
/// children at different normal indices never share their HMAC input.
pub proof fn law_distinct_child_numbers_distinct_data(
    kp: KeyPairView,
    level1: ChildType,
    level2: ChildType,
)
    requires
        level1.wf(),
        level2.wf(),
        level1.index() != level2.index(),
    ensures
        child_data(kp, level1) != child_data(kp, level2),
{
    law_child_data_ends_with_child_number(kp, level1);
    law_child_data_ends_with_child_number(kp, level2);
}

/// Normal children at different indices of the same key pair are derived
/// from different HMAC inputs.
pub proof fn law_normal_children_distinct_data(kp: KeyPairView, i: u32, j: u32)
    requires
        i != j,
    ensures
        child_data(kp, ChildType::Normal(i)) != child_data(kp, ChildType::Normal(j)),
        child_data(kp, ChildType::Normal(i)).subrange(
            0,
            child_data(kp, ChildType::Normal(i)).len() - 4,
        ) == secp256k1_public_key_compressed(kp.private_key),
{
    law_distinct_child_numbers_distinct_data(kp, ChildType::Normal(i), ChildType::Normal(j));
    law_child_data_ends_with_child_number(kp, ChildType::Normal(i));
}

} // verus!

//! Laws that relate the queries to one another.

use vstd::prelude::*;

use crate::codec::{decode_u64, le_u64};
use crate::lookup::{address_is, balance_of, eth_at, raw_hash_is, record_of, set_of_epoch, sum_stakes};
use crate::queries::{epochs_before_unbonded, evidence_params, evidence_params_defined};
use crate::search::{
    first_match, is_first_match, lemma_first_match_at, lemma_first_match_none,
    lemma_first_match_some,
};
use crate::types::{
    EpochDuration, EpochedEthAddress, PosParams, SendValsetUpd, Storage, WeightedValidator,
};

verus! {

/// A query given no epoch speaks of the epoch of the block being decided:
/// it reads the same validator set as one given the current epoch.
pub proof fn law_default_epoch_is_current(s: Storage)
    ensures
        s.resolve_epoch(None) == s.resolve_epoch(Some(s.current_epoch)),
        s.active_set(s.resolve_epoch(None)) == s.active_set(s.current_epoch),
{
}

/// The total voting power of an epoch is at least the stake of each of its
/// active validators.
pub proof fn law_total_power_bounds_each_stake(s: Storage, e: u64, i: int)
    requires
        0 <= i < s.active_set(e).len(),
    ensures
        s.active_set(e)[i].bonded_stake <= sum_stakes(s.active_set(e)),
{
    lemma_stake_below_sum(s.active_set(e), i);
}

proof fn lemma_stake_below_sum(v: Seq<WeightedValidator>, i: int)
    requires
        0 <= i < v.len(),
    ensures
        v[i].bonded_stake <= sum_stakes(v),
    decreases v.len(),
{
    lemma_sum_nonnegative(v.drop_last());
    if i < v.len() - 1 {
        lemma_stake_below_sum(v.drop_last(), i);
    }
}

proof fn lemma_sum_nonnegative(v: Seq<WeightedValidator>)
    ensures
        sum_stakes(v) >= 0,
    decreases v.len(),
{
    if v.len() > 0 {
        lemma_sum_nonnegative(v.drop_last());
    }
}

/// A lookup by address fails exactly when no active validator of the epoch
/// has that address; when it succeeds it finds a validator at that address.
pub proof fn law_address_lookup_fails_iff_absent(s: Storage, a: Seq<char>, e: u64)
    ensures
        s.validator_by_address(a, e) is None <==> forall|i: int|
            0 <= i < s.active_set(e).len() ==> (#[trigger] s.active_set(e)[i]).address@ != a,
        s.validator_by_address(a, e) matches Some(i) ==> 0 <= i < s.active_set(e).len()
            && s.active_set(e)[i].address@ == a,
{
    let v = s.active_set(e);
    if exists|i: int| 0 <= i < v.len() && (#[trigger] v[i]).address@ == a {
        let i = choose|i: int| 0 <= i < v.len() && (#[trigger] v[i]).address@ == a;
        assert(address_is(a)(v[i]));
        lemma_first_match_some(v, address_is(a), i);
    }
    if let Some(k) = s.validator_by_address(a, e) {
        assert(is_first_match(v, address_is(a), k));
    }
}

/// A lookup by protocol key fails exactly when no active validator of the
/// epoch has that key stored.
pub proof fn law_key_lookup_fails_iff_absent(s: Storage, pk: Seq<u8>, e: u64)
    ensures
        s.validator_by_protocol_key(pk, e) is None <==> forall|i: int|
            0 <= i < s.active_set(e).len() ==> s.stored_protocol_key(
                (#[trigger] s.active_set(e)[i]).address@,
            ) != Some(pk),
{
    let v = s.active_set(e);
    if exists|i: int|
        0 <= i < v.len() && s.stored_protocol_key((#[trigger] v[i]).address@) == Some(pk) {
        let i = choose|i: int|
            0 <= i < v.len() && s.stored_protocol_key((#[trigger] v[i]).address@) == Some(pk);
        assert(s.protocol_key_is(pk)(v[i]));
        lemma_first_match_some(v, s.protocol_key_is(pk), i);
    }
    if let Some(k) = s.validator_by_protocol_key(pk, e) {
        assert(is_first_match(v, s.protocol_key_is(pk), k));
    }
}

/// The validator that a lookup by protocol key finds is the one that a
/// lookup by its address finds, and the key stored for that address is the
/// key looked up.
pub proof fn law_key_lookup_agrees_with_address_lookup(s: Storage, pk: Seq<u8>, e: u64)
    ensures
        s.validator_by_protocol_key(pk, e) matches Some(i) ==> {
            &&& s.validator_by_address(s.active_set(e)[i].address@, e) == Some(i)
            &&& s.stored_protocol_key(s.active_set(e)[i].address@) == Some(pk)
        },
{
    let v = s.active_set(e);
    if let Some(i) = s.validator_by_protocol_key(pk, e) {
        assert(is_first_match(v, s.protocol_key_is(pk), i));
        let a = v[i].address@;
        assert forall|j: int| 0 <= j < i implies !address_is(a)(#[trigger] v[j]) by {
            if v[j].address@ == a {
                assert(s.protocol_key_is(pk)(v[j]));
            }
        }
        lemma_first_match_at(v, address_is(a), i);
    }
}

/// Where unbonding takes at most one epoch, evidence ages out at once.
pub proof fn law_short_unbonding_keeps_no_evidence(d: EpochDuration, p: PosParams)
    requires
        p.unbonding_len <= 1,
    ensures
        epochs_before_unbonded(p) == 0,
        evidence_params_defined(d, p),
        evidence_params(d, p).max_age_num_blocks == 0,
        evidence_params(d, p).max_age_duration matches Some(t) && t.seconds == 0 && t.nanos == 0,
{
}

/// The block being decided stands at one offset within its epoch at most.
pub proof fn law_deciding_offset_is_unique(s: Storage, a: u64, b: u64)
    requires
        s.is_deciding_offset(a),
        s.is_deciding_offset(b),
    ensures
        a == b,
{
}

/// The total voting power adds every validator's stake once: nothing for no
/// validators, and one more validator adds its whole stake, whatever the
/// stakes before it.
pub proof fn law_stake_sum_adds_each_stake(s: Seq<WeightedValidator>, v: WeightedValidator)
    ensures
        sum_stakes(Seq::<WeightedValidator>::empty()) == 0,
        sum_stakes(s.push(v)) == sum_stakes(s) + v.bonded_stake,
{
    assert(s.push(v).drop_last() =~= s);
}

/// A validator set update can always be sent at the previous height, and
/// now exactly when the block being decided is one past the first block of
/// the epoch.
pub proof fn law_set_update_timing(s: Storage)
    ensures
        s.can_send_update(SendValsetUpd::AtPrevHeight),
        s.can_send_update(SendValsetUpd::Now) == s.is_deciding_offset(1),
{
}

/// The block being decided is at offset `o` of its epoch when its height,
/// one past the last committed height, is `o` past the epoch's first height:
/// height 1 in epoch 0, and otherwise the last recorded first block height,
/// whatever the epoch's number; with no first heights recorded, never.
pub proof fn law_deciding_offset_counts_from_last_first_height(s: Storage, o: u64)
    ensures
        s.current_epoch == 0 ==> (s.is_deciding_offset(o) <==> s.last_height == o),
        s.current_epoch != 0 ==> (s.is_deciding_offset(o) <==> (s.first_block_heights@.len() > 0
            && s.last_height + 1 == s.first_block_heights@[s.first_block_heights@.len() - 1]
            + o)),
{
}

/// The balance is the whole amount stored in the first entry for the token
/// and owner, read as eight little-endian bytes.
pub proof fn law_balance_is_stored_amount(s: Storage, token: Seq<char>, owner: Seq<char>, i: int)
    requires
        0 <= i < s.balances@.len(),
        s.balances@[i].token@ == token,
        s.balances@[i].owner@ == owner,
        forall|j: int|
            0 <= j < i ==> !((#[trigger] s.balances@[j]).token@ == token && s.balances@[j].owner@
                == owner),
        s.balances@[i].value@.len() == 8,
    ensures
        s.balance_readable(token, owner),
        s.balance(token, owner) == le_u64(s.balances@[i].value@),
{
    assert forall|j: int| 0 <= j < i implies !balance_of(token, owner)(
        #[trigger] s.balances@[j],
    ) by {}
    lemma_first_match_at(s.balances@, balance_of(token, owner), i);
    let b = s.balances@[i].value@;
    assert(0 <= b[0] <= 0xff && 0 <= b[1] <= 0xff && 0 <= b[2] <= 0xff && 0 <= b[3] <= 0xff);
    assert(0 <= b[4] <= 0xff && 0 <= b[5] <= 0xff && 0 <= b[6] <= 0xff && 0 <= b[7] <= 0xff);
    assert(decode_u64(b) == Some(le_u64(b) as u64));
}

/// Where nothing is stored for the token and owner, the balance is zero.
pub proof fn law_missing_balance_is_zero(s: Storage, token: Seq<char>, owner: Seq<char>)
    requires
        forall|j: int|
            0 <= j < s.balances@.len() ==> !((#[trigger] s.balances@[j]).token@ == token
                && s.balances@[j].owner@ == owner),
    ensures
        s.balance_readable(token, owner),
        s.balance(token, owner) == 0,
{
    assert forall|j: int| 0 <= j < s.balances@.len() implies !balance_of(token, owner)(
        #[trigger] s.balances@[j],
    ) by {}
    lemma_first_match_none(s.balances@, balance_of(token, owner));
}

/// Eight little-endian bytes are read as the first byte plus 256 times the
/// value of the rest shifted down, and eight zero bytes are zero: so every
/// byte counts at its full place value.
pub proof fn law_little_endian_places(b: Seq<u8>)
    requires
        b.len() == 8,
    ensures
        le_u64(b) == b[0] + 0x100 * le_u64(b.subrange(1, 8).push(0u8)),
        le_u64(seq![0u8, 0u8, 0u8, 0u8, 0u8, 0u8, 0u8, 0u8]) == 0,
{
}

/// A validator's Ethereum addresses at epoch `e` are those of the first
/// entry for exactly epoch `e` among its keys, never another epoch's, and
/// there are none where no entry is for epoch `e`.
pub proof fn law_eth_addresses_of_exact_epoch(s: Storage, a: Seq<char>, e: u64, k: int)
    requires
        0 <= k < s.validators@.len(),
        s.validators@[k].address@ == a,
        forall|j: int| 0 <= j < k ==> (#[trigger] s.validators@[j]).address@ != a,
    ensures
        forall|i: int|
            0 <= i < s.validators@[k].eth_cold_keys@.len() && (
            #[trigger] s.validators@[k].eth_cold_keys@[i]).epoch == e && (forall|j: int|
                0 <= j < i ==> (#[trigger] s.validators@[k].eth_cold_keys@[j]).epoch != e)
                ==> s.ethgov_address(a, e) == Some(s.validators@[k].eth_cold_keys@[i].address),
        (forall|i: int|
            0 <= i < s.validators@[k].eth_cold_keys@.len() ==> (
            #[trigger] s.validators@[k].eth_cold_keys@[i]).epoch != e) ==> s.ethgov_address(a, e)
            is None,
        forall|i: int|
            0 <= i < s.validators@[k].eth_hot_keys@.len() && (
            #[trigger] s.validators@[k].eth_hot_keys@[i]).epoch == e && (forall|j: int|
                0 <= j < i ==> (#[trigger] s.validators@[k].eth_hot_keys@[j]).epoch != e)
                ==> s.ethbridge_address(a, e) == Some(s.validators@[k].eth_hot_keys@[i].address),
        (forall|i: int|
            0 <= i < s.validators@[k].eth_hot_keys@.len() ==> (
            #[trigger] s.validators@[k].eth_hot_keys@[i]).epoch != e) ==> s.ethbridge_address(
            a,
            e,
        ) is None,
{
    assert forall|j: int| 0 <= j < k implies !record_of(a)(#[trigger] s.validators@[j]) by {}
    lemma_first_match_at(s.validators@, record_of(a), k);
    let cold = s.validators@[k].eth_cold_keys@;
    let hot = s.validators@[k].eth_hot_keys@;
    lemma_exact_epoch(cold, e);
    lemma_exact_epoch(hot, e);
}

/// A validator without a record has no Ethereum addresses.
pub proof fn law_no_record_no_eth_addresses(s: Storage, a: Seq<char>, e: u64)
    requires
        forall|j: int| 0 <= j < s.validators@.len() ==> (#[trigger] s.validators@[j]).address@ != a,
    ensures
        s.ethgov_address(a, e) is None,
        s.ethbridge_address(a, e) is None,
{
    assert forall|j: int| 0 <= j < s.validators@.len() implies !record_of(a)(
        #[trigger] s.validators@[j],
    ) by {}
    lemma_first_match_none(s.validators@, record_of(a));
}

proof fn lemma_exact_epoch(keys: Seq<EpochedEthAddress>, e: u64)
    ensures
        forall|i: int|
            0 <= i < keys.len() && (#[trigger] keys[i]).epoch == e && (forall|j: int|
                0 <= j < i ==> (#[trigger] keys[j]).epoch != e) ==> crate::lookup::eth_address_at(
                keys,
                e,
            ) == Some(keys[i].address),
        (forall|i: int| 0 <= i < keys.len() ==> (#[trigger] keys[i]).epoch != e)
            ==> crate::lookup::eth_address_at(keys, e) is None,
{
    assert forall|i: int|
        0 <= i < keys.len() && (#[trigger] keys[i]).epoch == e && (forall|j: int|
            0 <= j < i ==> (#[trigger] keys[j]).epoch != e) implies crate::lookup::eth_address_at(
        keys,
        e,
    ) == Some(keys[i].address) by {
        assert forall|j: int| 0 <= j < i implies !eth_at(e)(#[trigger] keys[j]) by {}
        lemma_first_match_at(keys, eth_at(e), i);
    }
    if forall|i: int| 0 <= i < keys.len() ==> (#[trigger] keys[i]).epoch != e {
        assert forall|j: int| 0 <= j < keys.len() implies !eth_at(e)(#[trigger] keys[j]) by {}
        lemma_first_match_none(keys, eth_at(e));
    }
}

/// The active validators of epoch `e` are the members of the first set
/// recorded for exactly epoch `e`; with no set for `e` the epoch is unknown.
pub proof fn law_active_set_of_exact_epoch(s: Storage, e: u64)
    ensures
        forall|i: int|
            0 <= i < s.validator_sets@.len() && (#[trigger] s.validator_sets@[i]).epoch_of() == e
                && (forall|j: int|
                0 <= j < i ==> (#[trigger] s.validator_sets@[j]).epoch_of() != e) ==> s.knows_epoch(
                e,
            ) && s.active_set(e) == s.validator_sets@[i].members(),
        (forall|i: int|
            0 <= i < s.validator_sets@.len() ==> (#[trigger] s.validator_sets@[i]).epoch_of() != e)
            ==> !s.knows_epoch(e),
{
    let v = s.validator_sets@;
    assert forall|i: int|
        0 <= i < v.len() && (#[trigger] v[i]).epoch_of() == e && (forall|j: int|
            0 <= j < i ==> (#[trigger] v[j]).epoch_of() != e) implies s.knows_epoch(e)
        && s.active_set(e) == v[i].members() by {
        assert forall|j: int| 0 <= j < i implies !set_of_epoch(e)(#[trigger] v[j]) by {}
        lemma_first_match_at(v, set_of_epoch(e), i);
    }
    if forall|i: int| 0 <= i < v.len() ==> (#[trigger] v[i]).epoch_of() != e {
        assert forall|j: int| 0 <= j < v.len() implies !set_of_epoch(e)(#[trigger] v[j]) by {}
        lemma_first_match_none(v, set_of_epoch(e));
    }
}

/// The address found by a raw hash is the one of the first entry stored
/// under exactly that hash, and there is none where no entry has it.
pub proof fn law_raw_hash_lookup(s: Storage, h: Seq<char>)
    ensures
        forall|i: int|
            0 <= i < s.raw_hashes@.len() && (#[trigger] s.raw_hashes@[i]).raw_hash@ == h && (forall|
                j: int,
            | 0 <= j < i ==> (#[trigger] s.raw_hashes@[j]).raw_hash@ != h)
                ==> s.address_by_raw_hash(h) == Some(s.raw_hashes@[i].address),
        (forall|i: int| 0 <= i < s.raw_hashes@.len() ==> (#[trigger] s.raw_hashes@[i]).raw_hash@ != h)
            ==> s.address_by_raw_hash(h) is None,
{
    let v = s.raw_hashes@;
    assert forall|i: int|
        0 <= i < v.len() && (#[trigger] v[i]).raw_hash@ == h && (forall|j: int|
            0 <= j < i ==> (#[trigger] v[j]).raw_hash@ != h) implies s.address_by_raw_hash(h)
        == Some(v[i].address) by {
        assert forall|j: int| 0 <= j < i implies !raw_hash_is(h)(#[trigger] v[j]) by {}
        lemma_first_match_at(v, raw_hash_is(h), i);
    }
    if forall|i: int| 0 <= i < v.len() ==> (#[trigger] v[i]).raw_hash@ != h {
        assert forall|j: int| 0 <= j < v.len() implies !raw_hash_is(h)(#[trigger] v[j]) by {}
        lemma_first_match_none(v, raw_hash_is(h));
    }
}

/// The keys stored for a validator are those of its first record: the
/// protocol key and the DKG key, as they are stored.
pub proof fn law_stored_keys_of_first_record(s: Storage, a: Seq<char>, k: int)
    requires
        0 <= k < s.validators@.len(),
        s.validators@[k].address@ == a,
        forall|j: int| 0 <= j < k ==> (#[trigger] s.validators@[j]).address@ != a,
    ensures
        s.stored_protocol_key(a) == (match s.validators@[k].protocol_pk {
            Some(b) => Some(b@),
            None => None::<Seq<u8>>,
        }),
        s.stored_dkg_key(a) == (match s.validators@[k].dkg_pk {
            Some(b) => Some(b@),
            None => None::<Seq<u8>>,
        }),
{
    assert forall|j: int| 0 <= j < k implies !record_of(a)(#[trigger] s.validators@[j]) by {}
    lemma_first_match_at(s.validators@, record_of(a), k);
}

} // verus!

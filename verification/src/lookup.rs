//! What the storage answers to each key, as specs, and the searches that
//! find the answering entry.

use vstd::prelude::*;

use crate::codec::decode_u64;
use crate::search::{as_position, first_match, lemma_first_match_at, lemma_first_match_none};
use crate::types::{
    Address, BalanceEntry, EpochValidatorSet, EpochedEthAddress, EthAddress, RawHashEntry, Storage,
    ValidatorRecord, WeightedValidator,
};

verus! {

/// The validator set entry of epoch `e`.
pub open spec fn set_of_epoch(e: u64) -> spec_fn(EpochValidatorSet) -> bool {
    |s: EpochValidatorSet| s.epoch_of() == e
}

/// The record of the validator at address `a`.
pub open spec fn record_of(a: Seq<char>) -> spec_fn(ValidatorRecord) -> bool {
    |r: ValidatorRecord| r.address@ == a
}

/// The balance entry of `owner` in `token`.
pub open spec fn balance_of(token: Seq<char>, owner: Seq<char>) -> spec_fn(BalanceEntry) -> bool {
    |b: BalanceEntry| b.token@ == token && b.owner@ == owner
}

/// The entry stored under the raw hash `h`.
pub open spec fn raw_hash_is(h: Seq<char>) -> spec_fn(RawHashEntry) -> bool {
    |r: RawHashEntry| r.raw_hash@ == h
}

/// The Ethereum address that a key stands for at epoch `e`.
pub open spec fn eth_at(e: u64) -> spec_fn(EpochedEthAddress) -> bool {
    |k: EpochedEthAddress| k.epoch == e
}

/// A validator whose address is `a`.
pub open spec fn address_is(a: Seq<char>) -> spec_fn(WeightedValidator) -> bool {
    |v: WeightedValidator| v.address@ == a
}

/// The Ethereum address at epoch `e` among `keys`.
pub open spec fn eth_address_at(keys: Seq<EpochedEthAddress>, e: u64) -> Option<EthAddress> {
    match first_match(keys, eth_at(e)) {
        Some(i) => Some(keys[i].address),
        None => None,
    }
}

/// The sum of the bonded stakes of `s`.
pub open spec fn sum_stakes(s: Seq<WeightedValidator>) -> int
    decreases s.len(),
{
    if s.len() == 0 {
        0
    } else {
        sum_stakes(s.drop_last()) + s.last().bonded_stake
    }
}

impl Storage {
    /// The epoch that a query speaks of: the given one, else the current one.
    pub open spec fn resolve_epoch(self, epoch: Option<u64>) -> u64 {
        match epoch {
            Some(e) => e,
            None => self.current_epoch,
        }
    }

    /// Storage knows the validator set of epoch `e`.
    pub open spec fn knows_epoch(self, e: u64) -> bool {
        first_match(self.validator_sets@, set_of_epoch(e)) is Some
    }

    /// The active validators of epoch `e`, in the set's order.
    pub open spec fn active_set(self, e: u64) -> Seq<WeightedValidator> {
        match first_match(self.validator_sets@, set_of_epoch(e)) {
            Some(i) => self.validator_sets@[i].members(),
            None => Seq::empty(),
        }
    }

    /// What storage holds of the validator at address `a`.
    pub open spec fn record(self, a: Seq<char>) -> Option<ValidatorRecord> {
        match first_match(self.validators@, record_of(a)) {
            Some(i) => Some(self.validators@[i]),
            None => None,
        }
    }

    /// The serialized protocol key stored for the validator at `a`.
    pub open spec fn stored_protocol_key(self, a: Seq<char>) -> Option<Seq<u8>> {
        match self.record(a) {
            Some(r) => match r.protocol_pk {
                Some(b) => Some(b@),
                None => None,
            },
            None => None,
        }
    }

    /// The serialized DKG key stored for the validator at `a`.
    pub open spec fn stored_dkg_key(self, a: Seq<char>) -> Option<Seq<u8>> {
        match self.record(a) {
            Some(r) => match r.dkg_pk {
                Some(b) => Some(b@),
                None => None,
            },
            None => None,
        }
    }

    /// A validator whose stored protocol key is `pk`.
    pub open spec fn protocol_key_is(self, pk: Seq<u8>) -> spec_fn(WeightedValidator) -> bool {
        |v: WeightedValidator| self.stored_protocol_key(v.address@) == Some(pk)
    }

    /// The serialized balance stored for `owner` in `token`.
    pub open spec fn stored_balance(self, token: Seq<char>, owner: Seq<char>) -> Option<Seq<u8>> {
        match first_match(self.balances@, balance_of(token, owner)) {
            Some(i) => Some(self.balances@[i].value@),
            None => None,
        }
    }

    /// The balance of `owner` in `token` can be read: nothing is stored, or
    /// what is stored decodes.
    pub open spec fn balance_readable(self, token: Seq<char>, owner: Seq<char>) -> bool {
        match self.stored_balance(token, owner) {
            Some(b) => decode_u64(b) is Some,
            None => true,
        }
    }

    /// The balance of `owner` in `token`: what is stored, else zero.
    pub open spec fn balance(self, token: Seq<char>, owner: Seq<char>) -> u64 {
        match self.stored_balance(token, owner) {
            Some(b) => match decode_u64(b) {
                Some(v) => v,
                None => 0,
            },
            None => 0,
        }
    }

    /// The address stored under the raw hash `h`.
    pub open spec fn address_by_raw_hash(self, h: Seq<char>) -> Option<Address> {
        match first_match(self.raw_hashes@, raw_hash_is(h)) {
            Some(i) => Some(self.raw_hashes@[i].address),
            None => None,
        }
    }

    /// The Ethereum bridge address of the validator at `a` at epoch `e`.
    pub open spec fn ethbridge_address(self, a: Seq<char>, e: u64) -> Option<EthAddress> {
        match self.record(a) {
            Some(r) => eth_address_at(r.eth_hot_keys@, e),
            None => None,
        }
    }

    /// The Ethereum governance address of the validator at `a` at epoch `e`.
    pub open spec fn ethgov_address(self, a: Seq<char>, e: u64) -> Option<EthAddress> {
        match self.record(a) {
            Some(r) => eth_address_at(r.eth_cold_keys@, e),
            None => None,
        }
    }

    pub(crate) fn find_validator_set(&self, e: u64) -> (r: Option<usize>)
        ensures
            as_position(r) == first_match(self.validator_sets@, set_of_epoch(e)),
    {
        let mut i: usize = 0;
        while i < self.validator_sets.len()
            invariant
                i <= self.validator_sets@.len(),
                forall|j: int| 0 <= j < i ==> !set_of_epoch(e)(#[trigger] self.validator_sets@[j]),
            decreases self.validator_sets@.len() - i,
        {
            if self.validator_sets[i].epoch() == e {
                proof {
                    lemma_first_match_at(self.validator_sets@, set_of_epoch(e), i as int);
                }
                return Some(i);
            }
            i += 1;
        }
        proof {
            lemma_first_match_none(self.validator_sets@, set_of_epoch(e));
        }
        None
    }

    pub(crate) fn find_record(&self, a: &Address) -> (r: Option<usize>)
        ensures
            as_position(r) == first_match(self.validators@, record_of(a@)),
    {
        let mut i: usize = 0;
        while i < self.validators.len()
            invariant
                i <= self.validators@.len(),
                forall|j: int| 0 <= j < i ==> !record_of(a@)(#[trigger] self.validators@[j]),
            decreases self.validators@.len() - i,
        {
            if self.validators[i].address.encoded == a.encoded {
                proof {
                    lemma_first_match_at(self.validators@, record_of(a@), i as int);
                }
                return Some(i);
            }
            i += 1;
        }
        proof {
            lemma_first_match_none(self.validators@, record_of(a@));
        }
        None
    }

    pub(crate) fn find_balance(&self, token: &Address, owner: &Address) -> (r: Option<usize>)
        ensures
            as_position(r) == first_match(self.balances@, balance_of(token@, owner@)),
    {
        let mut i: usize = 0;
        while i < self.balances.len()
            invariant
                i <= self.balances@.len(),
                forall|j: int|
                    0 <= j < i ==> !balance_of(token@, owner@)(#[trigger] self.balances@[j]),
            decreases self.balances@.len() - i,
        {
            if self.balances[i].token.encoded == token.encoded && self.balances[i].owner.encoded
                == owner.encoded {
                proof {
                    lemma_first_match_at(self.balances@, balance_of(token@, owner@), i as int);
                }
                return Some(i);
            }
            i += 1;
        }
        proof {
            lemma_first_match_none(self.balances@, balance_of(token@, owner@));
        }
        None
    }

    pub(crate) fn find_raw_hash(&self, h: &String) -> (r: Option<usize>)
        ensures
            as_position(r) == first_match(self.raw_hashes@, raw_hash_is(h@)),
    {
        let mut i: usize = 0;
        while i < self.raw_hashes.len()
            invariant
                i <= self.raw_hashes@.len(),
                forall|j: int| 0 <= j < i ==> !raw_hash_is(h@)(#[trigger] self.raw_hashes@[j]),
            decreases self.raw_hashes@.len() - i,
        {
            if self.raw_hashes[i].raw_hash == *h {
                proof {
                    lemma_first_match_at(self.raw_hashes@, raw_hash_is(h@), i as int);
                }
                return Some(i);
            }
            i += 1;
        }
        proof {
            lemma_first_match_none(self.raw_hashes@, raw_hash_is(h@));
        }
        None
    }
}

pub(crate) fn find_eth_address(keys: &Vec<EpochedEthAddress>, e: u64) -> (r: Option<EthAddress>)
    ensures
        r == eth_address_at(keys@, e),
{
    let mut i: usize = 0;
    while i < keys.len()
        invariant
            i <= keys@.len(),
            forall|j: int| 0 <= j < i ==> !eth_at(e)(#[trigger] keys@[j]),
        decreases keys@.len() - i,
    {
        if keys[i].epoch == e {
            proof {
                lemma_first_match_at(keys@, eth_at(e), i as int);
            }
            return Some(keys[i].address);
        }
        i += 1;
    }
    proof {
        lemma_first_match_none(keys@, eth_at(e));
    }
    None
}

pub(crate) fn find_by_address(set: &Vec<WeightedValidator>, a: &Address) -> (r: Option<usize>)
    ensures
        as_position(r) == first_match(set@, address_is(a@)),
{
    let mut i: usize = 0;
    while i < set.len()
        invariant
            i <= set@.len(),
            forall|j: int| 0 <= j < i ==> !address_is(a@)(#[trigger] set@[j]),
        decreases set@.len() - i,
    {
        if set[i].address.encoded == a.encoded {
            proof {
                lemma_first_match_at(set@, address_is(a@), i as int);
            }
            return Some(i);
        }
        i += 1;
    }
    proof {
        lemma_first_match_none(set@, address_is(a@));
    }
    None
}

/// The two byte strings are equal.
pub(crate) fn bytes_eq(a: &Vec<u8>, b: &Vec<u8>) -> (r: bool)
    ensures
        r == (a@ == b@),
{
    if a.len() != b.len() {
        return false;
    }
    let mut i: usize = 0;
    while i < a.len()
        invariant
            a@.len() == b@.len(),
            i <= a@.len(),
            forall|j: int| 0 <= j < i ==> a@[j] == b@[j],
        decreases a@.len() - i,
    {
        if a[i] != b[i] {
            return false;
        }
        i += 1;
    }
    assert(a@ =~= b@);
    true
}

} // verus!

//! The queries over the ledger state.

use vstd::prelude::*;
use vstd::slice::slice_to_vec;
use vstd::utf8::{decode_utf8, valid_utf8};

use crate::codec::{decode_stored_u64, decode_u64, str_from_utf8};
use crate::lookup::{
    address_is, bytes_eq, find_by_address, find_eth_address, sum_stakes,
};
use crate::search::{as_position, first_match, lemma_first_match_at, lemma_first_match_none};
use crate::types::{
    Address, Duration, EpochDuration, EthAddrBook, EthAddress, EvidenceParams, Error, PosParams,
    PublicKey, SendValsetUpd, Storage, TendermintValidator, WeightedValidator, is_validator_set,
};

verus! {

/// The value of `x` cast to `i64`, which wraps above `i64::MAX`.
pub open spec fn as_i64(x: u64) -> int {
    if x <= i64::MAX {
        x as int
    } else {
        x - 0x1_0000_0000_0000_0000
    }
}

/// The number of epochs before unbonded tokens can be withdrawn: one less
/// than the unbonding length, and at least zero.
pub open spec fn epochs_before_unbonded(p: PosParams) -> int {
    let l = as_i64(p.unbonding_len) - 1;
    if l > 0 {
        l
    } else {
        0
    }
}

/// The evidence parameters can be computed without overflow.
pub open spec fn evidence_params_defined(d: EpochDuration, p: PosParams) -> bool {
    &&& as_i64(p.unbonding_len) - 1 >= i64::MIN
    &&& i64::MIN <= as_i64(d.min_num_of_blocks) * epochs_before_unbonded(p) <= i64::MAX
    &&& i64::MIN <= as_i64(d.min_duration) * epochs_before_unbonded(p) <= i64::MAX
}

/// The evidence parameters: evidence ages out after as many blocks, and as
/// many seconds, as the epochs before unbonding last at least.
pub open spec fn evidence_params(d: EpochDuration, p: PosParams) -> EvidenceParams {
    EvidenceParams {
        max_age_num_blocks: (as_i64(d.min_num_of_blocks) * epochs_before_unbonded(p)) as i64,
        max_age_duration: Some(
            Duration {
                seconds: (as_i64(d.min_duration) * epochs_before_unbonded(p)) as i64,
                nanos: 0,
            },
        ),
        max_bytes: 0,
    }
}

/// The validators that the entries name, each with its bonded stake.
pub open spec fn weighted_entries(r: Seq<(EthAddrBook, Address, u64)>) -> Seq<WeightedValidator> {
    r.map_values(|t: (EthAddrBook, Address, u64)| WeightedValidator { bonded_stake: t.2, address: t.1 })
}

fn cast_i64(x: u64) -> (r: i64)
    ensures
        r == as_i64(x),
{
    if x <= 0x7fff_ffff_ffff_ffff {
        x as i64
    } else {
        let y: u64 = x - 0x8000_0000_0000_0000;
        (y as i64) - 0x7fff_ffff_ffff_ffff - 1
    }
}

impl Storage {
    /// The position of the first active validator of epoch `e` at address `a`.
    pub open spec fn validator_by_address(self, a: Seq<char>, e: u64) -> Option<int> {
        first_match(self.active_set(e), address_is(a))
    }

    /// The position of the first active validator of epoch `e` whose stored
    /// protocol key is `pk`.
    pub open spec fn validator_by_protocol_key(self, pk: Seq<u8>, e: u64) -> Option<int> {
        first_match(self.active_set(e), self.protocol_key_is(pk))
    }

    /// The height of the block that is being decided.
    pub open spec fn decision_height(self) -> int {
        self.last_height + 1
    }

    /// The first block height of the latest epoch that storage records.
    pub open spec fn last_first_block_height(self) -> Option<u64> {
        if self.first_block_heights@.len() == 0 {
            None
        } else {
            Some(self.first_block_heights@.last())
        }
    }

    /// The heights that the offset query compares stay below `u64::MAX`.
    pub open spec fn offset_query_defined(self, offset: u64) -> bool {
        &&& self.last_height < u64::MAX
        &&& self.current_epoch == 0 ==> 1 + offset <= u64::MAX
        &&& self.current_epoch != 0 ==> (self.last_first_block_height() matches Some(h) ==> h
            + offset <= u64::MAX)
    }

    /// The block being decided is `offset` blocks after the first block of
    /// the current epoch. In epoch 0 the first block is taken to be at
    /// height 1; with no first heights recorded the answer is no.
    pub open spec fn is_deciding_offset(self, offset: u64) -> bool {
        if self.current_epoch == 0 {
            self.decision_height() == 1 + offset
        } else {
            match self.last_first_block_height() {
                Some(h) => self.decision_height() == h + offset,
                None => false,
            }
        }
    }

    /// A validator set update vote extension can be sent.
    pub open spec fn can_send_update(self, can_send: SendValsetUpd) -> bool {
        match can_send {
            SendValsetUpd::AtPrevHeight => true,
            SendValsetUpd::Now => self.is_deciding_offset(1),
        }
    }

    /// Get the set of active validators for a given epoch (defaulting to
    /// the epoch of the current yet-to-be-committed block).
    pub fn get_active_validators(&self, epoch: Option<u64>) -> (r: Vec<WeightedValidator>)
        requires
            self.knows_epoch(self.resolve_epoch(epoch)),
        ensures
            r@ == self.active_set(self.resolve_epoch(epoch)),
            is_validator_set(r@),
    {
        let e = match epoch {
            Some(e) => e,
            None => self.current_epoch,
        };
        let i = self.find_validator_set(e).unwrap();
        let active = self.validator_sets[i].active();
        let r = active.clone();
        assert(r@ =~= active@);
        r
    }

    /// Lookup the total voting power for an epoch (defaulting to the
    /// epoch of the current yet-to-be-committed block): the sum of the
    /// bonded stakes of its active validators.
    pub fn get_total_voting_power(&self, epoch: Option<u64>) -> (r: u64)
        requires
            self.knows_epoch(self.resolve_epoch(epoch)),
            sum_stakes(self.active_set(self.resolve_epoch(epoch))) <= u64::MAX,
        ensures
            r == sum_stakes(self.active_set(self.resolve_epoch(epoch))),
    {
        let validators = self.get_active_validators(epoch);
        let ghost s = validators@;
        let mut total: u64 = 0;
        let mut i: usize = 0;
        while i < validators.len()
            invariant
                s == validators@,
                sum_stakes(s) <= u64::MAX,
                i <= s.len(),
                total == sum_stakes(s.take(i as int)),
            decreases s.len() - i,
        {
            proof {
                assert(s.take(i + 1).drop_last() =~= s.take(i as int));
                lemma_sum_prefix(s, i + 1);
            }
            total = total + validators[i].bonded_stake;
            i += 1;
        }
        assert(s.take(s.len() as int) =~= s);
        total
    }

    /// Simple helper function for the ledger to get balances of the
    /// specified token at the specified address: what is stored, else zero.
    pub fn get_balance(&self, token: &Address, owner: &Address) -> (r: u64)
        requires
            self.balance_readable(token@, owner@),
        ensures
            r == self.balance(token@, owner@),
    {
        match self.find_balance(token, owner) {
            Some(i) => {
                let v = decode_stored_u64(self.balances[i].value.as_slice());
                match v {
                    Some(v) => v,
                    None => 0,
                }
            },
            None => 0,
        }
    }

    /// Return the evidence parameters: evidence ages out after the minimal
    /// length, in blocks and in seconds, of the epochs before unbonding.
    pub fn get_evidence_params(&self, epoch_duration: &EpochDuration, pos_params: &PosParams) -> (r:
        EvidenceParams)
        requires
            evidence_params_defined(*epoch_duration, *pos_params),
        ensures
            r == evidence_params(*epoch_duration, *pos_params),
    {
        let unbonding: i64 = cast_i64(pos_params.unbonding_len) - 1;
        let len_before_unbonded: i64 = if unbonding > 0 {
            unbonding
        } else {
            0
        };
        let max_age_num_blocks: i64 = cast_i64(epoch_duration.min_num_of_blocks)
            * len_before_unbonded;
        let min_duration_secs: i64 = cast_i64(epoch_duration.min_duration);
        let max_age_duration = Some(
            Duration { seconds: min_duration_secs * len_before_unbonded, nanos: 0 },
        );
        EvidenceParams { max_age_num_blocks, max_age_duration, max_bytes: 0 }
    }

    fn find_by_protocol_key(&self, set: &Vec<WeightedValidator>, pk: &Vec<u8>) -> (r: Option<
        usize,
    >)
        ensures
            as_position(r) == first_match(set@, self.protocol_key_is(pk@)),
    {
        let mut i: usize = 0;
        while i < set.len()
            invariant
                i <= set@.len(),
                forall|j: int| 0 <= j < i ==> !self.protocol_key_is(pk@)(#[trigger] set@[j]),
            decreases set@.len() - i,
        {
            let found = match self.find_record(&set[i].address) {
                Some(k) => match &self.validators[k].protocol_pk {
                    Some(b) => bytes_eq(b, pk),
                    None => false,
                },
                None => false,
            };
            if found {
                proof {
                    lemma_first_match_at(set@, self.protocol_key_is(pk@), i as int);
                }
                return Some(i);
            }
            i += 1;
        }
        proof {
            lemma_first_match_none(set@, self.protocol_key_is(pk@));
        }
        None
    }

    /// Lookup data about a validator from their protocol signing key: the
    /// first active validator of the epoch whose stored protocol key is the
    /// given one, with its stored DKG key.
    pub fn get_validator_from_protocol_pk(&self, pk: &PublicKey, epoch: Option<u64>) -> (r: Result<
        TendermintValidator,
        Error,
    >)
        requires
            self.knows_epoch(self.resolve_epoch(epoch)),
            self.validator_by_protocol_key(pk.bytes@, self.resolve_epoch(epoch)) matches Some(i)
                ==> self.stored_dkg_key(
                self.active_set(self.resolve_epoch(epoch))[i].address@,
            ) is Some,
        ensures
            match self.validator_by_protocol_key(pk.bytes@, self.resolve_epoch(epoch)) {
                Some(i) => {
                    let v = self.active_set(self.resolve_epoch(epoch))[i];
                    &&& r matches Ok(t)
                    &&& t.power == v.bonded_stake
                    &&& t.address == v.address.encoded
                    &&& t.public_key@ == self.stored_dkg_key(v.address@).unwrap()
                },
                None => r == Err::<TendermintValidator, Error>(
                    Error::NotValidatorKey(pk.text, self.resolve_epoch(epoch)),
                ),
            },
    {
        let e = match epoch {
            Some(e) => e,
            None => self.current_epoch,
        };
        let validators = self.get_active_validators(Some(e));
        match self.find_by_protocol_key(&validators, &pk.bytes) {
            Some(i) => {
                let v = &validators[i];
                let k = self.find_record(&v.address).unwrap();
                let public_key = match &self.validators[k].dkg_pk {
                    Some(b) => slice_to_vec(b.as_slice()),
                    // not reached: the `requires` has the key stored
                    None => Vec::new(),
                };
                Ok(
                    TendermintValidator {
                        power: v.bonded_stake,
                        address: v.address.encoded.clone(),
                        public_key,
                    },
                )
            },
            None => Err(Error::NotValidatorKey(pk.text.clone(), e)),
        }
    }

    /// Lookup data about a validator from their address: the stake of the
    /// first active validator of the epoch at that address, with its stored
    /// protocol key.
    pub fn get_validator_from_address(&self, address: &Address, epoch: Option<u64>) -> (r: Result<
        (u64, Vec<u8>),
        Error,
    >)
        requires
            self.knows_epoch(self.resolve_epoch(epoch)),
            self.validator_by_address(address@, self.resolve_epoch(epoch)) is Some
                ==> self.stored_protocol_key(address@) is Some,
        ensures
            match self.validator_by_address(address@, self.resolve_epoch(epoch)) {
                Some(i) => {
                    let v = self.active_set(self.resolve_epoch(epoch))[i];
                    &&& r matches Ok((stake, pk))
                    &&& stake == v.bonded_stake
                    &&& pk@ == self.stored_protocol_key(address@).unwrap()
                },
                None => r == Err::<(u64, Vec<u8>), Error>(
                    Error::NotValidatorAddress(*address, self.resolve_epoch(epoch)),
                ),
            },
    {
        let e = match epoch {
            Some(e) => e,
            None => self.current_epoch,
        };
        let validators = self.get_active_validators(Some(e));
        match find_by_address(&validators, address) {
            Some(i) => {
                let v = &validators[i];
                let k = self.find_record(&v.address).unwrap();
                let protocol_pk = match &self.validators[k].protocol_pk {
                    Some(b) => slice_to_vec(b.as_slice()),
                    // not reached: the `requires` has the key stored
                    None => Vec::new(),
                };
                Ok((v.bonded_stake, protocol_pk))
            },
            None => Err(Error::NotValidatorAddress(address.clone(), e)),
        }
    }

    /// Given a Tendermint validator address, the raw hash of its public
    /// key, look up the validator's native address: the address stored
    /// under that raw hash, read as UTF-8 text.
    pub fn get_validator_from_tm_address(&self, tm_address: &[u8], epoch: Option<u64>) -> (r:
        Result<Address, Error>)
        ensures
            !valid_utf8(tm_address@) ==> r == Err::<Address, Error>(Error::InvalidTMAddress),
            valid_utf8(tm_address@) ==> match self.address_by_raw_hash(decode_utf8(tm_address@)) {
                Some(a) => r == Ok::<Address, Error>(a),
                None => r matches Err(Error::NotValidatorKeyHash(h, e)) && h@ == decode_utf8(
                    tm_address@,
                ) && e == self.resolve_epoch(epoch),
            },
    {
        let e = match epoch {
            Some(e) => e,
            None => self.current_epoch,
        };
        let raw = match str_from_utf8(tm_address) {
            Some(s) => s,
            None => {
                return Err(Error::InvalidTMAddress);
            },
        };
        let raw_hash = raw.to_owned();
        match self.find_raw_hash(&raw_hash) {
            Some(i) => Ok(self.raw_hashes[i].address.clone()),
            None => Err(Error::NotValidatorKeyHash(raw_hash, e)),
        }
    }

    /// Determines if it is possible to send a validator set update vote
    /// extension: always at the previous height, and now only at the second
    /// block of the epoch.
    pub fn can_send_validator_set_update(&self, can_send: SendValsetUpd) -> (r: bool)
        requires
            can_send == SendValsetUpd::Now ==> self.offset_query_defined(1),
        ensures
            r == self.can_send_update(can_send),
    {
        match can_send {
            SendValsetUpd::AtPrevHeight => true,
            SendValsetUpd::Now => self.is_deciding_offset_within_epoch(1),
        }
    }

    /// Check if we are at a given block height offset, `height_offset`,
    /// within the current epoch.
    pub fn is_deciding_offset_within_epoch(&self, height_offset: u64) -> (r: bool)
        requires
            self.offset_query_defined(height_offset),
        ensures
            r == self.is_deciding_offset(height_offset),
    {
        let current_decision_height = self.get_current_decision_height();
        if self.current_epoch == 0 {
            return current_decision_height == 1 + height_offset;
        }
        let n = self.first_block_heights.len();
        if n == 0 {
            false
        } else {
            current_decision_height == self.first_block_heights[n - 1] + height_offset
        }
    }

    /// Retrieves the block height that is currently being decided.
    pub fn get_current_decision_height(&self) -> (r: u64)
        requires
            self.last_height < u64::MAX,
        ensures
            r == self.decision_height(),
    {
        self.last_height + 1
    }

    /// For a given validator, return its corresponding Ethereum bridge
    /// address at the epoch.
    pub fn get_ethbridge_from_namada_addr(&self, validator: &Address, epoch: Option<u64>) -> (r:
        Option<EthAddress>)
        ensures
            r == self.ethbridge_address(validator@, self.resolve_epoch(epoch)),
    {
        let e = match epoch {
            Some(e) => e,
            None => self.current_epoch,
        };
        match self.find_record(validator) {
            Some(k) => find_eth_address(&self.validators[k].eth_hot_keys, e),
            None => None,
        }
    }

    /// For a given validator, return its corresponding Ethereum governance
    /// address at the epoch.
    pub fn get_ethgov_from_namada_addr(&self, validator: &Address, epoch: Option<u64>) -> (r:
        Option<EthAddress>)
        ensures
            r == self.ethgov_address(validator@, self.resolve_epoch(epoch)),
    {
        let e = match epoch {
            Some(e) => e,
            None => self.current_epoch,
        };
        match self.find_record(validator) {
            Some(k) => find_eth_address(&self.validators[k].eth_cold_keys, e),
            None => None,
        }
    }

    /// The active validators of the epoch, in the set's order, each with
    /// its Ethereum addresses, its address and its bonded stake.
    pub fn get_active_eth_addresses(&self, epoch: Option<u64>) -> (r: Vec<
        (EthAddrBook, Address, u64),
    >)
        requires
            self.knows_epoch(self.resolve_epoch(epoch)),
            forall|i: int|
                0 <= i < self.active_set(self.resolve_epoch(epoch)).len() ==> {
                    let a = (#[trigger] self.active_set(self.resolve_epoch(epoch))[i]).address@;
                    &&& self.ethbridge_address(a, self.resolve_epoch(epoch)) is Some
                    &&& self.ethgov_address(a, self.resolve_epoch(epoch)) is Some
                },
        ensures
            r@.len() == self.active_set(self.resolve_epoch(epoch)).len(),
            weighted_entries(r@) == self.active_set(self.resolve_epoch(epoch)),
            is_validator_set(weighted_entries(r@)),
            forall|i: int|
                0 <= i < r@.len() ==> {
                    let v = self.active_set(self.resolve_epoch(epoch))[i];
                    let e = self.resolve_epoch(epoch);
                    &&& (#[trigger] r@[i]).0 == EthAddrBook {
                        hot_key_addr: self.ethbridge_address(v.address@, e).unwrap(),
                        cold_key_addr: self.ethgov_address(v.address@, e).unwrap(),
                    }
                    &&& r@[i].1 == v.address
                    &&& r@[i].2 == v.bonded_stake
                },
    {
        let e = match epoch {
            Some(e) => e,
            None => self.current_epoch,
        };
        let validators = self.get_active_validators(Some(e));
        let ghost s = validators@;
        let mut r: Vec<(EthAddrBook, Address, u64)> = Vec::new();
        let mut i: usize = 0;
        while i < validators.len()
            invariant
                s == validators@,
                s == self.active_set(e),
                i <= s.len(),
                r@.len() == i,
                forall|k: int|
                    0 <= k < s.len() ==> {
                        let a = (#[trigger] s[k]).address@;
                        &&& self.ethbridge_address(a, e) is Some
                        &&& self.ethgov_address(a, e) is Some
                    },
                forall|k: int|
                    0 <= k < i ==> {
                        let v = s[k];
                        &&& (#[trigger] r@[k]).0 == EthAddrBook {
                            hot_key_addr: self.ethbridge_address(v.address@, e).unwrap(),
                            cold_key_addr: self.ethgov_address(v.address@, e).unwrap(),
                        }
                        &&& r@[k].1 == v.address
                        &&& r@[k].2 == v.bonded_stake
                    },
            decreases s.len() - i,
        {
            let v = &validators[i];
            assert(self.ethbridge_address(s[i as int].address@, e) is Some);
            let hot = self.get_ethbridge_from_namada_addr(&v.address, Some(e));
            let cold = self.get_ethgov_from_namada_addr(&v.address, Some(e));
            let (hot_key_addr, cold_key_addr) = match (hot, cold) {
                (Some(h), Some(c)) => (h, c),
                // not reached: the `requires` has both addresses
                _ => (EthAddress([0u8; 20]), EthAddress([0u8; 20])),
            };
            r.push((EthAddrBook { hot_key_addr, cold_key_addr }, v.address.clone(), v.bonded_stake));
            i += 1;
        }
        assert(weighted_entries(r@) =~= s);
        r
    }

    /// Retrieve the `max_proposal_bytes` consensus parameter from storage.
    pub fn get_max_proposal_bytes(&self) -> (r: u64)
        requires
            self.max_proposal_bytes matches Some(b) && decode_u64(b@) is Some,
        ensures
            r == decode_u64(self.max_proposal_bytes.unwrap()@).unwrap(),
    {
        match &self.max_proposal_bytes {
            Some(b) => match decode_stored_u64(b.as_slice()) {
                Some(v) => v,
                None => 0,
            },
            None => 0,
        }
    }
}

/// The stake sum of a prefix is at most the stake sum of the whole.
proof fn lemma_sum_prefix(s: Seq<WeightedValidator>, i: int)
    requires
        0 <= i <= s.len(),
    ensures
        sum_stakes(s.take(i)) <= sum_stakes(s),
    decreases s.len(),
{
    if i == s.len() {
        assert(s.take(i) =~= s);
    } else {
        lemma_sum_prefix(s.drop_last(), i);
        assert(s.drop_last().take(i) =~= s.take(i));
    }
}

} // verus!

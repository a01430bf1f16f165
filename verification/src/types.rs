//! The values that the queries read and return.

use vstd::prelude::*;

verus! {

/// An address of the ledger, held as its string encoding.
#[derive(Debug, PartialEq, Eq)]
pub struct Address {
    pub encoded: String,
}

impl View for Address {
    type V = Seq<char>;

    open spec fn view(&self) -> Seq<char> {
        self.encoded@
    }
}

impl Clone for Address {
    fn clone(&self) -> (r: Self)
        ensures
            r == *self,
    {
        Address { encoded: self.encoded.clone() }
    }
}

/// A validator together with the stake bonded to it.
#[derive(Debug, PartialEq, Eq)]
pub struct WeightedValidator {
    pub bonded_stake: u64,
    pub address: Address,
}

impl Clone for WeightedValidator {
    fn clone(&self) -> (r: Self)
        ensures
            r == *self,
    {
        WeightedValidator { bonded_stake: self.bonded_stake, address: self.address.clone() }
    }
}

/// A public key, held as its Borsh serialization and its textual form.
#[derive(Clone, Debug, PartialEq, Eq)]
pub struct PublicKey {
    pub bytes: Vec<u8>,
    pub text: String,
}

/// An Ethereum address.
#[derive(Clone, Copy, Debug, PartialEq, Eq)]
pub struct EthAddress(pub [u8; 20]);

/// The Ethereum addresses of a validator: the one its bridge (hot) key
/// stands for and the one of its governance (cold) key.
#[derive(Clone, Copy, Debug, PartialEq, Eq)]
pub struct EthAddrBook {
    pub hot_key_addr: EthAddress,
    pub cold_key_addr: EthAddress,
}

/// What a Tendermint validator is told of a validator: its voting power,
/// its address in text and the serialized DKG public key that storage holds
/// for it.
#[derive(Clone, Debug, PartialEq, Eq)]
pub struct TendermintValidator {
    pub power: u64,
    pub address: String,
    pub public_key: Vec<u8>,
}

/// A protobuf duration.
#[derive(Clone, Copy, Debug, PartialEq, Eq)]
pub struct Duration {
    pub seconds: i64,
    pub nanos: i32,
}

/// Tendermint's evidence parameters.
#[derive(Clone, Copy, Debug, PartialEq, Eq)]
pub struct EvidenceParams {
    pub max_age_num_blocks: i64,
    pub max_age_duration: Option<Duration>,
    pub max_bytes: i64,
}

/// The minimal length of an epoch, in blocks and in seconds.
#[derive(Clone, Copy, Debug, PartialEq, Eq)]
pub struct EpochDuration {
    pub min_num_of_blocks: u64,
    pub min_duration: u64,
}

/// The proof-of-stake parameter that the queries read: the number of epochs
/// that an unbonding takes.
#[derive(Clone, Copy, Debug, PartialEq, Eq)]
pub struct PosParams {
    pub unbonding_len: u64,
}

/// Errors returned by the queries.
#[derive(Clone, Debug, PartialEq, Eq)]
pub enum Error {
    /// The given address is not among the set of active validators for
    /// the corresponding epoch.
    NotValidatorAddress(Address, u64),
    /// The given public key does not correspond to any active validator's
    /// key at the provided epoch.
    NotValidatorKey(String, u64),
    /// The given public key hash does not correspond to any active
    /// validator's key at the provided epoch.
    NotValidatorKeyHash(String, u64),
    /// An invalid Tendermint validator address was detected.
    InvalidTMAddress,
}

/// When a validator set update vote extension would be sent.
#[derive(Clone, Copy, Debug, PartialEq, Eq, Structural)]
pub enum SendValsetUpd {
    /// At the current block height.
    Now,
    /// At the previous block height.
    AtPrevHeight,
}

/// Two entries of a validator set in the set's order: the first has no
/// more stake than the second, and entries of equal stake are of different
/// validators.
pub open spec fn in_set_order(v: WeightedValidator, w: WeightedValidator) -> bool {
    &&& v.bonded_stake <= w.bonded_stake
    &&& v.bonded_stake == w.bonded_stake ==> v.address@ != w.address@
}

/// `s` lists the members of a validator set, each once, in the set's
/// order: by bonded stake, and no entry twice.
pub open spec fn is_validator_set(s: Seq<WeightedValidator>) -> bool {
    forall|i: int, j: int| 0 <= i < j < s.len() ==> in_set_order(#[trigger] s[i], #[trigger] s[j])
}

/// The active validator set of one epoch, in the set's order.
#[derive(Debug, PartialEq, Eq)]
pub struct EpochValidatorSet {
    pub(crate) epoch: u64,
    pub(crate) active: Vec<WeightedValidator>,
}

impl EpochValidatorSet {
    #[verifier::type_invariant]
    spec fn holds_a_set(self) -> bool {
        is_validator_set(self.active@)
    }

    /// The epoch of the set.
    pub closed spec fn epoch_of(self) -> u64 {
        self.epoch
    }

    /// The members of the set, in the set's order.
    pub closed spec fn members(self) -> Seq<WeightedValidator> {
        self.active@
    }

    /// The validator set of `epoch` with the members `active`, where they
    /// form a set in the set's order.
    pub fn new(epoch: u64, active: Vec<WeightedValidator>) -> (r: Option<Self>)
        ensures
            r is Some <==> is_validator_set(active@),
            r matches Some(s) ==> s.epoch_of() == epoch && s.members() == active@,
    {
        let n = active.len();
        let mut i: usize = 0;
        while i < n
            invariant
                n == active@.len(),
                i <= n,
                forall|a: int, b: int|
                    0 <= a < i && a < b < n ==> in_set_order(
                        #[trigger] active@[a],
                        #[trigger] active@[b],
                    ),
            decreases n - i,
        {
            let mut j: usize = i + 1;
            while j < n
                invariant
                    n == active@.len(),
                    i < n,
                    i + 1 <= j <= n,
                    forall|a: int, b: int|
                        0 <= a < i && a < b < n ==> in_set_order(
                            #[trigger] active@[a],
                            #[trigger] active@[b],
                        ),
                    forall|b: int| i < b < j ==> in_set_order(active@[i as int], #[trigger] active@[b]),
                decreases n - j,
            {
                let v = &active[i];
                let w = &active[j];
                if v.bonded_stake > w.bonded_stake || (v.bonded_stake == w.bonded_stake
                    && v.address.encoded == w.address.encoded) {
                    assert(!in_set_order(active@[i as int], active@[j as int]));
                    return None;
                }
                j += 1;
            }
            i += 1;
        }
        Some(EpochValidatorSet { epoch, active })
    }

    /// The epoch of the set.
    pub fn epoch(&self) -> (r: u64)
        ensures
            r == self.epoch_of(),
    {
        self.epoch
    }

    /// The members of the set, in the set's order.
    pub fn active(&self) -> (r: &Vec<WeightedValidator>)
        ensures
            r@ == self.members(),
            is_validator_set(r@),
    {
        proof {
            use_type_invariant(self);
        }
        &self.active
    }
}

/// The Ethereum address that a validator's key stands for at an epoch.
#[derive(Clone, Copy, Debug, PartialEq, Eq)]
pub struct EpochedEthAddress {
    pub epoch: u64,
    pub address: EthAddress,
}

/// What storage holds of one validator: its protocol and DKG public keys,
/// serialized, and, per epoch, the Ethereum addresses of its bridge and
/// governance keys.
#[derive(Clone, Debug, PartialEq, Eq)]
pub struct ValidatorRecord {
    pub address: Address,
    pub protocol_pk: Option<Vec<u8>>,
    pub dkg_pk: Option<Vec<u8>>,
    pub eth_hot_keys: Vec<EpochedEthAddress>,
    pub eth_cold_keys: Vec<EpochedEthAddress>,
}

/// The stored balance of `owner` in `token`, as its serialized bytes.
#[derive(Clone, Debug, PartialEq, Eq)]
pub struct BalanceEntry {
    pub token: Address,
    pub owner: Address,
    pub value: Vec<u8>,
}

/// A validator's address, stored under the raw hash of its Tendermint key.
#[derive(Clone, Debug, PartialEq, Eq)]
pub struct RawHashEntry {
    pub raw_hash: String,
    pub address: Address,
}

/// The ledger storage as the queries read it. Where several entries answer
/// to one key, the first one answers.
#[derive(Debug, PartialEq, Eq)]
pub struct Storage {
    /// The epoch of the block that is being decided.
    pub current_epoch: u64,
    /// The height of the last committed block.
    pub last_height: u64,
    /// The first block height of each epoch, oldest first. (Which epoch a
    /// given height falls in is namada's `Epochs::get_epoch`, which this
    /// library does not hold.)
    pub first_block_heights: Vec<u64>,
    /// The active validator set of each known epoch.
    pub validator_sets: Vec<EpochValidatorSet>,
    /// What storage holds of each validator.
    pub validators: Vec<ValidatorRecord>,
    /// Validator addresses by the raw hash of their Tendermint keys.
    pub raw_hashes: Vec<RawHashEntry>,
    /// The stored token balances.
    pub balances: Vec<BalanceEntry>,
    /// The stored `max_proposal_bytes` consensus parameter, serialized.
    pub max_proposal_bytes: Option<Vec<u8>>,
}

} // verus!

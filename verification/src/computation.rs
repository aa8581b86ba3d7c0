//! The jobs that the coordinator hands to the computation cluster, and the
//! results that come back.

use vstd::prelude::*;

verus! {

/// The settlement computations that can be queued.
#[derive(Clone, Copy, Debug, PartialEq, Eq, Structural)]
pub enum Circuit {
    SubmitPrivateVote,
    AggregateMarketVotes,
    CalculatePayout,
    CalculateMarketOdds,
}

/// One argument of a queued computation.
#[derive(Clone, Copy, Debug, PartialEq, Eq)]
pub enum Argument {
    PlaintextU8(u8),
    PlaintextU64(u64),
    PlaintextU128(u128),
    EncryptedU8([u8; 32]),
    EncryptedU16([u8; 32]),
    EncryptedU64([u8; 32]),
    EncryptedU128([u8; 32]),
    /// The public key under which the encrypted arguments that follow were sealed.
    ArcisPubkey([u8; 32]),
    /// A range of an account's data: the account, the offset and the length in bytes.
    Account([u8; 32], u32, u32),
}

/// An account that the callback of a computation may touch.
#[derive(Clone, Copy, Debug, PartialEq, Eq)]
pub struct CallbackAccount {
    pub pubkey: [u8; 32],
    pub is_writable: bool,
}

/// A computation to be queued: which circuit, under which request identifier,
/// on which arguments, and the accounts that its callback is given.
#[derive(Clone, Debug, PartialEq, Eq)]
pub struct QueuedComputation {
    pub circuit: Circuit,
    pub computation_offset: u64,
    pub args: Vec<Argument>,
    pub callback_accounts: Vec<CallbackAccount>,
}

/// What a computation handed back.
#[derive(Clone, Copy, Debug, PartialEq, Eq)]
pub enum ComputationOutputs<O> {
    Success(O),
    Failure,
}

/// Ciphertexts sealed for a voter: the key, the nonce and one block per value.
#[derive(Clone, Copy, Debug, PartialEq, Eq)]
pub struct SharedEncryptedStruct<const LEN: usize> {
    pub encryption_key: [u8; 32],
    pub nonce: u128,
    pub ciphertexts: [[u8; 32]; LEN],
}

/// Where the compiled form of a circuit is kept outside the ledger.
#[derive(Clone, Debug, PartialEq, Eq)]
pub struct OffChainCircuitSource {
    pub source: String,
    pub hash: [u8; 32],
}

/// The registration of a circuit with the computation cluster.
#[derive(Clone, Debug, PartialEq, Eq)]
pub struct ComputationDefinition {
    pub circuit: Circuit,
    pub finalize_during_callback: bool,
    pub cu_amount: u64,
    pub circuit_source: OffChainCircuitSource,
    pub finalize_authority: Option<[u8; 32]>,
}

/// Offset of the market totals within the market account: the account
/// discriminator and the bump come first.
pub const VOTE_STATE_OFFSET: u32 = 9;

/// Length of the market totals within the market account: eleven blocks of 32 bytes.
pub const VOTE_STATE_LEN: u32 = 352;

/// The identifier under which the cluster knows the circuit of the given name.
pub uninterp spec fn comp_def_offset_of(name: Seq<char>) -> u32;

/// `arcium_anchor::comp_def_offset` hashes the circuit's name and reads the
/// first four bytes of the digest as a little-endian number: the result
/// depends on the name alone.
pub assume_specification[ arcium_anchor::comp_def_offset ](conf_ix_name: &str) -> (offset: u32)
    ensures
        offset == comp_def_offset_of(conf_ix_name@),
;

impl Circuit {
    /// The name under which the circuit is compiled and registered.
    pub open spec fn spec_name(self) -> Seq<char> {
        match self {
            Circuit::SubmitPrivateVote => "submit_private_vote"@,
            Circuit::AggregateMarketVotes => "aggregate_market_votes"@,
            Circuit::CalculatePayout => "calculate_payout"@,
            Circuit::CalculateMarketOdds => "calculate_market_odds"@,
        }
    }

    /// The address at which the compiled circuit is published.
    pub open spec fn spec_source(self) -> Seq<char> {
        match self {
            Circuit::SubmitPrivateVote =>
                "https://esuvpguudqdlgwxhweqp.supabase.co/storage/v1/object/public/arcium-circuits/submit_private_vote_testnet.arcis"@,
            Circuit::AggregateMarketVotes =>
                "https://esuvpguudqdlgwxhweqp.supabase.co/storage/v1/object/public/arcium-circuits/aggregate_market_votes_testnet.arcis"@,
            Circuit::CalculatePayout =>
                "https://esuvpguudqdlgwxhweqp.supabase.co/storage/v1/object/public/arcium-circuits/calculate_payout_testnet.arcis"@,
            Circuit::CalculateMarketOdds =>
                "https://esuvpguudqdlgwxhweqp.supabase.co/storage/v1/object/public/arcium-circuits/calculate_market_odds_testnet.arcis"@,
        }
    }

    /// The name under which the circuit is compiled and registered.
    pub fn name(&self) -> (name: &'static str)
        ensures
            name@ == self.spec_name(),
    {
        match self {
            Circuit::SubmitPrivateVote => "submit_private_vote",
            Circuit::AggregateMarketVotes => "aggregate_market_votes",
            Circuit::CalculatePayout => "calculate_payout",
            Circuit::CalculateMarketOdds => "calculate_market_odds",
        }
    }

    /// The identifier under which the cluster knows the circuit.
    pub fn comp_def_offset(&self) -> (offset: u32)
        ensures
            offset == comp_def_offset_of(self.spec_name()),
    {
        arcium_anchor::comp_def_offset(self.name())
    }

    /// The registration of the circuit: finalized during the callback, with no
    /// compute budget of its own, read from its published address, and with no
    /// finalize authority. The hash of the source is left zero.
    pub fn definition(&self) -> (definition: ComputationDefinition)
        ensures
            definition.circuit == *self,
            definition.finalize_during_callback,
            definition.cu_amount == 0,
            definition.circuit_source.source@ == self.spec_source(),
            definition.circuit_source.hash@ == Seq::new(32, |i: int| 0u8),
            definition.finalize_authority is None,
    {
        let source: &'static str = match self {
            Circuit::SubmitPrivateVote =>
                "https://esuvpguudqdlgwxhweqp.supabase.co/storage/v1/object/public/arcium-circuits/submit_private_vote_testnet.arcis",
            Circuit::AggregateMarketVotes =>
                "https://esuvpguudqdlgwxhweqp.supabase.co/storage/v1/object/public/arcium-circuits/aggregate_market_votes_testnet.arcis",
            Circuit::CalculatePayout =>
                "https://esuvpguudqdlgwxhweqp.supabase.co/storage/v1/object/public/arcium-circuits/calculate_payout_testnet.arcis",
            Circuit::CalculateMarketOdds =>
                "https://esuvpguudqdlgwxhweqp.supabase.co/storage/v1/object/public/arcium-circuits/calculate_market_odds_testnet.arcis",
        };
        let hash: [u8; 32] = [0u8; 32];
        assert(hash@ =~= Seq::new(32, |i: int| 0u8));
        ComputationDefinition {
            circuit: *self,
            finalize_during_callback: true,
            cu_amount: 0,
            circuit_source: OffChainCircuitSource { source: source.to_string(), hash },
            finalize_authority: None,
        }
    }
}

/// Tells whether two addresses are the same, byte for byte.
pub fn same_address(a: &[u8; 32], b: &[u8; 32]) -> (same: bool)
    ensures
        same == (a@ == b@),
        same == (*a == *b),
{
    let mut i: usize = 0;
    while i < 32
        invariant
            i <= 32,
            forall|k: int| 0 <= k < i ==> a@[k] == b@[k],
        decreases 32 - i,
    {
        if a[i] != b[i] {
            return false;
        }
        i += 1;
    }
    assert(a@ =~= b@);
    assert(*a =~= *b);
    true
}

} // verus!

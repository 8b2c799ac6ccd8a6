//! Data model of the factory: one beneficiary's vesting allocation, the
//! fungible-token metadata, and the per-token deployment record with its four
//! completion flags, together with the validity rules that every admitted
//! allocation set obeys.

use vstd::prelude::*;

use crate::constants::{treasury_id, MAX_SUPPLY_PERCENT};

verus! {

/// An allocation as supplied by (and reported to) the outside world: no
/// `claimed` amount yet.
#[derive(Clone, Copy, Debug, PartialEq, Eq, Structural)]
pub struct WrappedTokenAllocation {
    pub allocated_percent: u64,
    pub initial_release: u64,
    pub vesting_start_time: u64,
    pub vesting_end_time: u64,
    pub vesting_interval: u64,
}

/// One beneficiary's share of a token. `allocated_percent` and
/// `initial_release` carry two implied decimal digits (10000 = 100.00%);
/// the vesting times are absolute timestamps and `vesting_interval` a
/// duration within the vesting window.
#[derive(Clone, Copy, Debug, PartialEq, Eq, Structural)]
pub struct TokenAllocation {
    pub allocated_percent: u64,
    pub initial_release: u64,
    pub vesting_start_time: u64,
    pub vesting_end_time: u64,
    pub vesting_interval: u64,
    pub claimed: u64,
}

/// Immutable description of the fungible token to be created. Set once at
/// registration; tombstoned to absent once the final saga step hands the data
/// to the downstream program.
#[derive(Debug)]
pub struct FTMetadata {
    pub total_supply: u128,
    pub token_name: String,
    pub symbol: String,
    pub icon: Option<String>,
    pub reference: Option<String>,
    pub reference_hash: Option<Vec<u8>>,
    pub decimals: u8,
}

/// The outward form of the metadata.
#[derive(Debug)]
pub struct WrappedFTMetadata {
    pub total_supply: u128,
    pub token_name: String,
    pub symbol: String,
    pub icon: Option<String>,
    pub reference: Option<String>,
    pub reference_hash: Option<Vec<u8>>,
    pub decimals: u8,
}

/// A token's full deployment record: target identifiers, creator, metadata,
/// the allocation ledger, and the four saga completion flags.
#[derive(Debug)]
pub struct State {
    pub ft_contract: String,
    pub ft_metadata: Option<FTMetadata>,
    pub ft_deployer: String,
    pub creator: String,
    pub allocations: Vec<(String, TokenAllocation)>,
    pub ft_contract_deployed: bool,
    pub deployer_contract_deployed: bool,
    pub ft_issued: bool,
    pub allocation_initialized: bool,
}

/// The outward form of a deployment record.
#[derive(Debug)]
pub struct WrappedState {
    pub ft_contract: String,
    pub ft_metadata: Option<WrappedFTMetadata>,
    pub ft_deployer: String,
    pub creator: String,
    pub allocations: Vec<(String, TokenAllocation)>,
    pub ft_contract_deployed: bool,
    pub deployer_contract_deployed: bool,
    pub ft_issued: bool,
    pub allocation_initialized: bool,
}

/// Outcome of a dispatched external call, as delivered to a callback.
#[derive(Debug)]
pub enum PromiseOutcome {
    NotReady,
    Successful(Vec<u8>),
    Failed,
}

/// Why a call was rejected. Validation and authorization failures are
/// reported synchronously with no state change; `InvariantViolation` marks a
/// callback that observed an already-set flag or an already-tombstoned
/// record.
#[derive(Clone, Copy, Debug, PartialEq, Eq, Structural)]
pub enum FactoryError {
    DepositTooLow,
    AlreadyRegistered,
    InvalidAllocation,
    InvalidAllocationSet,
    InvalidAccountId,
    NotRegistered,
    NotCreator,
    NotAdmin,
    NotOwner,
    InvariantViolation,
}

/// The four saga steps, each guarded by its own completion flag.
#[derive(Clone, Copy, Debug, PartialEq, Eq, Structural)]
pub enum SagaStep {
    FtContract,
    DeployerContract,
    FtIssue,
    AllocationInit,
}

// ---------------------------------------------------------------------------
// Association sequences (string-keyed ledgers and registries)
// ---------------------------------------------------------------------------

/// Some entry of `s` has key `k`.
pub open spec fn contains_key<T>(s: Seq<(String, T)>, k: Seq<char>) -> bool {
    exists|i: int| #![trigger s[i]] 0 <= i < s.len() && s[i].0@ == k
}

/// The index of the entry with key `k` (meaningful when the key is present
/// and keys are unique).
pub open spec fn key_index<T>(s: Seq<(String, T)>, k: Seq<char>) -> int {
    choose|i: int| #![trigger s[i]] 0 <= i < s.len() && s[i].0@ == k
}

/// The value stored under key `k`.
pub open spec fn value_of<T>(s: Seq<(String, T)>, k: Seq<char>) -> T {
    s[key_index(s, k)].1
}

/// No two entries share a key.
pub open spec fn keys_unique<T>(s: Seq<(String, T)>) -> bool {
    forall|i: int, j: int| #![trigger s[i], s[j]] 0 <= i < j < s.len() ==> s[i].0@ != s[j].0@
}

/// Some element of `s` views as `k`.
pub open spec fn contains_str(s: Seq<String>, k: Seq<char>) -> bool {
    exists|i: int| #![trigger s[i]] 0 <= i < s.len() && s[i]@ == k
}

/// No two elements view alike.
pub open spec fn strs_unique(s: Seq<String>) -> bool {
    forall|i: int, j: int| #![trigger s[i], s[j]] 0 <= i < j < s.len() ==> s[i]@ != s[j]@
}

// ---------------------------------------------------------------------------
// Allocation validity
// ---------------------------------------------------------------------------

/// Per-record rule: the vesting interval fits the vesting window and the
/// share covers what is already released or claimed.
pub open spec fn alloc_wf(a: TokenAllocation) -> bool {
    &&& a.vesting_start_time <= a.vesting_end_time
    &&& a.vesting_interval <= a.vesting_end_time - a.vesting_start_time
    &&& a.initial_release + a.claimed <= a.allocated_percent
}

/// Every allocation of the ledger obeys the per-record rule.
pub open spec fn allocs_wf(s: Seq<(String, TokenAllocation)>) -> bool {
    forall|i: int| #![trigger s[i]] 0 <= i < s.len() ==> alloc_wf(s[i].1)
}

/// Total of `allocated_percent` over the ledger.
pub open spec fn sum_allocated(s: Seq<(String, TokenAllocation)>) -> int
    decreases s.len(),
{
    if s.len() == 0 {
        0
    } else {
        sum_allocated(s.drop_last()) + s.last().1.allocated_percent
    }
}

/// The designated treasury account holds a strictly positive share.
pub open spec fn has_treasury(s: Seq<(String, TokenAllocation)>) -> bool {
    exists|i: int|
        #![trigger s[i]]
        0 <= i < s.len() && s[i].0@ == treasury_id() && s[i].1.allocated_percent > 0
}

/// The allocation set of a record, sufficient for deployment: a real
/// registration (metadata present, positive supply, at least one entry),
/// unique beneficiaries, every record valid, shares summing exactly to the
/// percent base, and a positive treasury entry.
pub open spec fn set_valid(s: State) -> bool {
    &&& s.ft_metadata is Some
    &&& s.ft_metadata->Some_0.total_supply > 0
    &&& s.allocations@.len() > 0
    &&& keys_unique(s.allocations@)
    &&& allocs_wf(s.allocations@)
    &&& sum_allocated(s.allocations@) == MAX_SUPPLY_PERCENT
    &&& has_treasury(s.allocations@)
}

/// The record's data has been handed to the downstream programs: metadata
/// absent and ledger empty.
pub open spec fn tombstoned(s: State) -> bool {
    &&& s.ft_metadata is None
    &&& s.allocations@.len() == 0
}

/// Every record the registry holds is either still fully valid or
/// tombstoned, and a record whose final flag is set is always tombstoned.
pub open spec fn record_ok(s: State) -> bool {
    &&& set_valid(s) || tombstoned(s)
    &&& s.allocation_initialized ==> tombstoned(s)
}

// ---------------------------------------------------------------------------
// Conversions
// ---------------------------------------------------------------------------

/// The ledger form of an incoming allocation: nothing claimed yet.
pub open spec fn mk_alloc(w: WrappedTokenAllocation) -> TokenAllocation {
    TokenAllocation {
        allocated_percent: w.allocated_percent,
        initial_release: w.initial_release,
        vesting_start_time: w.vesting_start_time,
        vesting_end_time: w.vesting_end_time,
        vesting_interval: w.vesting_interval,
        claimed: 0,
    }
}

/// The outward form of a ledger allocation: the `claimed` amount stays
/// behind.
pub open spec fn wrap_alloc(a: TokenAllocation) -> WrappedTokenAllocation {
    WrappedTokenAllocation {
        allocated_percent: a.allocated_percent,
        initial_release: a.initial_release,
        vesting_start_time: a.vesting_start_time,
        vesting_end_time: a.vesting_end_time,
        vesting_interval: a.vesting_interval,
    }
}

pub open spec fn wrap_metadata(m: FTMetadata) -> WrappedFTMetadata {
    WrappedFTMetadata {
        total_supply: m.total_supply,
        token_name: m.token_name,
        symbol: m.symbol,
        icon: m.icon,
        reference: m.reference,
        reference_hash: m.reference_hash,
        decimals: m.decimals,
    }
}

pub open spec fn wrap_state(s: State) -> WrappedState {
    WrappedState {
        ft_contract: s.ft_contract,
        ft_metadata: match s.ft_metadata {
            Option::None => Option::None,
            Option::Some(m) => Option::Some(wrap_metadata(m)),
        },
        ft_deployer: s.ft_deployer,
        creator: s.creator,
        allocations: s.allocations,
        ft_contract_deployed: s.ft_contract_deployed,
        deployer_contract_deployed: s.deployer_contract_deployed,
        ft_issued: s.ft_issued,
        allocation_initialized: s.allocation_initialized,
    }
}

impl From<FTMetadata> for WrappedFTMetadata {
    fn from(m: FTMetadata) -> (r: Self) {
        WrappedFTMetadata {
            total_supply: m.total_supply,
            token_name: m.token_name,
            symbol: m.symbol,
            icon: m.icon,
            reference: m.reference,
            reference_hash: m.reference_hash,
            decimals: m.decimals,
        }
    }
}

impl vstd::std_specs::convert::FromSpecImpl<FTMetadata> for WrappedFTMetadata {
    open spec fn obeys_from_spec() -> bool {
        true
    }

    open spec fn from_spec(m: FTMetadata) -> Self {
        wrap_metadata(m)
    }
}

impl From<State> for WrappedState {
    fn from(s: State) -> (r: Self) {
        WrappedState {
            ft_contract: s.ft_contract,
            ft_metadata: match s.ft_metadata {
                Option::None => Option::None,
                Option::Some(m) => Option::Some(WrappedFTMetadata::from(m)),
            },
            ft_deployer: s.ft_deployer,
            creator: s.creator,
            allocations: s.allocations,
            ft_contract_deployed: s.ft_contract_deployed,
            deployer_contract_deployed: s.deployer_contract_deployed,
            ft_issued: s.ft_issued,
            allocation_initialized: s.allocation_initialized,
        }
    }
}

impl vstd::std_specs::convert::FromSpecImpl<State> for WrappedState {
    open spec fn obeys_from_spec() -> bool {
        true
    }

    open spec fn from_spec(s: State) -> Self {
        wrap_state(s)
    }
}

// ---------------------------------------------------------------------------
// Deep equality (a copied byte string or ledger is a fresh vector, equal to
// its source only at the level of views)
// ---------------------------------------------------------------------------

/// The two optional byte strings hold the same bytes.
pub open spec fn opt_bytes_eq(a: Option<Vec<u8>>, b: Option<Vec<u8>>) -> bool {
    match (a, b) {
        (Option::None, Option::None) => true,
        (Option::Some(x), Option::Some(y)) => x@ == y@,
        _ => false,
    }
}

/// The two metadata records describe the same token.
pub open spec fn metadata_eq(a: FTMetadata, b: FTMetadata) -> bool {
    &&& a.total_supply == b.total_supply
    &&& a.token_name == b.token_name
    &&& a.symbol == b.symbol
    &&& a.icon == b.icon
    &&& a.reference == b.reference
    &&& opt_bytes_eq(a.reference_hash, b.reference_hash)
    &&& a.decimals == b.decimals
}

/// The two outward metadata records describe the same token.
pub open spec fn wmetadata_eq(a: WrappedFTMetadata, b: WrappedFTMetadata) -> bool {
    &&& a.total_supply == b.total_supply
    &&& a.token_name == b.token_name
    &&& a.symbol == b.symbol
    &&& a.icon == b.icon
    &&& a.reference == b.reference
    &&& opt_bytes_eq(a.reference_hash, b.reference_hash)
    &&& a.decimals == b.decimals
}

pub open spec fn opt_wmetadata_eq(a: Option<WrappedFTMetadata>, b: Option<WrappedFTMetadata>) -> bool {
    match (a, b) {
        (Option::None, Option::None) => true,
        (Option::Some(x), Option::Some(y)) => wmetadata_eq(x, y),
        _ => false,
    }
}

/// The two outward records hold the same data, flags included.
pub open spec fn wstate_eq(a: WrappedState, b: WrappedState) -> bool {
    &&& a.ft_contract == b.ft_contract
    &&& opt_wmetadata_eq(a.ft_metadata, b.ft_metadata)
    &&& a.ft_deployer == b.ft_deployer
    &&& a.creator == b.creator
    &&& a.allocations@ == b.allocations@
    &&& a.ft_contract_deployed == b.ft_contract_deployed
    &&& a.deployer_contract_deployed == b.deployer_contract_deployed
    &&& a.ft_issued == b.ft_issued
    &&& a.allocation_initialized == b.allocation_initialized
}

// ---------------------------------------------------------------------------
// Copies (the byte-string and ledger fields make the result a fresh vector,
// so the copy is exact up to views)
// ---------------------------------------------------------------------------

/// An exact copy of an optional string.
pub fn copy_opt_string(o: &Option<String>) -> (r: Option<String>)
    ensures
        r == *o,
{
    match o {
        Option::None => Option::None,
        Option::Some(s) => Option::Some(s.clone()),
    }
}

/// A copy of an optional byte string, exact up to views.
pub fn copy_opt_bytes(o: &Option<Vec<u8>>) -> (r: Option<Vec<u8>>)
    ensures
        opt_bytes_eq(r, *o),
{
    match o {
        Option::None => Option::None,
        Option::Some(v) => {
            let mut out: Vec<u8> = Vec::new();
            let mut i: usize = 0;
            while i < v.len()
                invariant
                    i <= v.len(),
                    out@ == v@.take(i as int),
                decreases v.len() - i,
            {
                out.push(v[i]);
                i = i + 1;
            }
            proof {
                assert(out@ =~= v@);
            }
            Option::Some(out)
        },
    }
}

/// A copy of an allocation ledger, exact up to views.
pub fn copy_allocations(v: &Vec<(String, TokenAllocation)>) -> (r: Vec<(String, TokenAllocation)>)
    ensures
        r@ == v@,
{
    let mut out: Vec<(String, TokenAllocation)> = Vec::new();
    let mut i: usize = 0;
    while i < v.len()
        invariant
            i <= v.len(),
            out@ == v@.take(i as int),
        decreases v.len() - i,
    {
        let entry = (v[i].0.clone(), v[i].1);
        out.push(entry);
        i = i + 1;
        proof {
            assert(out@ =~= v@.take(i as int));
        }
    }
    proof {
        assert(out@ =~= v@);
    }
    out
}

/// A copy of the metadata, exact up to views.
pub fn copy_metadata(m: &FTMetadata) -> (r: FTMetadata)
    ensures
        metadata_eq(r, *m),
{
    let r = FTMetadata {
        total_supply: m.total_supply,
        token_name: m.token_name.clone(),
        symbol: m.symbol.clone(),
        icon: copy_opt_string(&m.icon),
        reference: copy_opt_string(&m.reference),
        reference_hash: copy_opt_bytes(&m.reference_hash),
        decimals: m.decimals,
    };
    r
}

// ---------------------------------------------------------------------------
// The placeholder record
// ---------------------------------------------------------------------------

/// The marker string that fills a placeholder record's identifier fields.
pub open spec fn default_marker() -> Seq<char> {
    "__default_value__"@
}

/// The placeholder returned where a listing meets an unknown identifier:
/// marker identifiers, zero supply, no allocations, no progress.
pub open spec fn is_default_state(s: State) -> bool {
    &&& s.ft_contract@ == default_marker()
    &&& s.ft_metadata is Some
    &&& s.ft_metadata->Some_0.total_supply == 0
    &&& s.ft_metadata->Some_0.token_name@ == default_marker()
    &&& s.ft_metadata->Some_0.symbol@ == default_marker()
    &&& s.ft_metadata->Some_0.icon matches Option::Some(i) && i@ == default_marker()
    &&& s.ft_metadata->Some_0.reference is None
    &&& s.ft_metadata->Some_0.reference_hash is None
    &&& s.ft_metadata->Some_0.decimals == 0
    &&& s.ft_deployer@ == default_marker()
    &&& s.creator@ == default_marker()
    &&& s.allocations@.len() == 0
    &&& s.ft_contract_deployed == false
    &&& s.deployer_contract_deployed == false
    &&& s.ft_issued == false
    &&& s.allocation_initialized == false
}

/// The outward form of the placeholder record.
pub open spec fn is_default_wstate(s: WrappedState) -> bool {
    &&& s.ft_contract@ == default_marker()
    &&& s.ft_metadata is Some
    &&& s.ft_metadata->Some_0.total_supply == 0
    &&& s.ft_metadata->Some_0.token_name@ == default_marker()
    &&& s.ft_metadata->Some_0.symbol@ == default_marker()
    &&& s.ft_metadata->Some_0.icon matches Option::Some(i) && i@ == default_marker()
    &&& s.ft_metadata->Some_0.reference is None
    &&& s.ft_metadata->Some_0.reference_hash is None
    &&& s.ft_metadata->Some_0.decimals == 0
    &&& s.ft_deployer@ == default_marker()
    &&& s.creator@ == default_marker()
    &&& s.allocations@.len() == 0
    &&& s.ft_contract_deployed == false
    &&& s.deployer_contract_deployed == false
    &&& s.ft_issued == false
    &&& s.allocation_initialized == false
}

impl Default for State {
    /// The placeholder record.
    fn default() -> (r: Self)
        ensures
            is_default_state(r),
    {
        let marker = "__default_value__";
        State {
            ft_contract: marker.to_owned(),
            ft_metadata: Option::Some(
                FTMetadata {
                    total_supply: 0,
                    token_name: marker.to_owned(),
                    symbol: marker.to_owned(),
                    icon: Option::Some(marker.to_owned()),
                    reference: Option::None,
                    reference_hash: Option::None,
                    decimals: 0,
                },
            ),
            ft_deployer: marker.to_owned(),
            creator: marker.to_owned(),
            allocations: Vec::new(),
            ft_contract_deployed: false,
            deployer_contract_deployed: false,
            ft_issued: false,
            allocation_initialized: false,
        }
    }
}

// ---------------------------------------------------------------------------
// Sum lemmas
// ---------------------------------------------------------------------------

/// Appending one entry adds its share to the total.
pub proof fn lemma_sum_push(s: Seq<(String, TokenAllocation)>, p: (String, TokenAllocation))
    ensures
        sum_allocated(s.push(p)) == sum_allocated(s) + p.1.allocated_percent,
{
    assert(s.push(p).drop_last() =~= s);
}

/// The total of a non-negative ledger bounds each entry.
pub proof fn lemma_sum_nonneg(s: Seq<(String, TokenAllocation)>)
    ensures
        sum_allocated(s) >= 0,
    decreases s.len(),
{
    if s.len() > 0 {
        lemma_sum_nonneg(s.drop_last());
    }
}

} // verus!

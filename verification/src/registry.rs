//! The token registry: a string-keyed store of deployment records, the admin
//! set, and a reverse index from an account to the tokens it is associated
//! with. Registration validates the allocation set in full and inserts
//! atomically; the reverse index is kept consistent with the registry.

use vstd::prelude::*;

use crate::account::{is_valid_account_id, valid_account_id};
use crate::constants::{treasury_account, treasury_id, MAX_SUPPLY_PERCENT, MIN_REGISTER_DEPOSIT};
use crate::types::{
    alloc_wf, allocs_wf, contains_key, contains_str, has_treasury, key_index, keys_unique,
    mk_alloc, record_ok, strs_unique, sum_allocated, lemma_sum_push, lemma_sum_nonneg,
    FactoryError, FTMetadata, State, TokenAllocation, WrappedTokenAllocation,
};

verus! {

/// The factory: owner, admins, the token registry, and the reverse index
/// from accounts to token identifiers.
pub struct TokenFactory {
    pub owner_id: String,
    pub admins: Vec<String>,
    pub tokens: Vec<(String, State)>,
    pub user_token_map: Vec<(String, Vec<String>)>,
}

/// Registry half of well-formedness: unique keys, each record keyed by its
/// own target identifier, and each record either fully valid or tombstoned.
pub open spec fn tokens_ok(tokens: Seq<(String, State)>) -> bool {
    &&& keys_unique(tokens)
    &&& forall|i: int|
        #![trigger tokens[i]]
        0 <= i < tokens.len() ==> tokens[i].1.ft_contract@ == tokens[i].0@ && record_ok(
            tokens[i].1,
        )
}

/// Reverse-index half of well-formedness: unique users, unique entries per
/// user, and no entry dangling (every listed identifier is a registry key).
pub open spec fn user_map_ok(m: Seq<(String, Vec<String>)>, tokens: Seq<(String, State)>) -> bool {
    &&& keys_unique(m)
    &&& forall|i: int| #![trigger m[i]] 0 <= i < m.len() ==> strs_unique(m[i].1@)
    &&& forall|i: int, j: int|
        #![trigger m[i].1@[j]]
        0 <= i < m.len() && 0 <= j < m[i].1@.len() ==> contains_key(tokens, m[i].1@[j]@)
}

impl TokenFactory {
    /// The factory's invariant: every constructor establishes it and every
    /// method preserves it.
    pub open spec fn wf(self) -> bool {
        &&& tokens_ok(self.tokens@)
        &&& strs_unique(self.admins@)
        &&& user_map_ok(self.user_token_map@, self.tokens@)
    }

    /// An empty factory owned by `owner_id`.
    pub fn new(owner_id: String) -> (r: Self)
        ensures
            r.owner_id == owner_id,
            r.admins@.len() == 0,
            r.tokens@.len() == 0,
            r.user_token_map@.len() == 0,
            r.wf(),
    {
        TokenFactory {
            owner_id,
            admins: Vec::new(),
            tokens: Vec::new(),
            user_token_map: Vec::new(),
        }
    }
}

// ---------------------------------------------------------------------------
// Lookup helpers and lemmas
// ---------------------------------------------------------------------------

/// With unique keys, any index holding `k` is the one `key_index` denotes.
pub proof fn lemma_key_index_unique<T>(s: Seq<(String, T)>, k: Seq<char>, i: int)
    requires
        keys_unique(s),
        0 <= i < s.len(),
        s[i].0@ == k,
    ensures
        contains_key(s, k),
        key_index(s, k) == i,
{
    assert(contains_key(s, k));
    let j = key_index(s, k);
    assert(0 <= j < s.len() && s[j].0@ == k);
    if i < j {
        assert(s[i].0@ != s[j].0@);
    } else if j < i {
        assert(s[j].0@ != s[i].0@);
    }
}

/// Appending an entry adds exactly its key to the key set.
pub proof fn lemma_contains_push<T>(s: Seq<(String, T)>, p: (String, T), k: Seq<char>)
    ensures
        contains_key(s.push(p), k) <==> (contains_key(s, k) || p.0@ == k),
{
    if contains_key(s, k) {
        let i = key_index(s, k);
        assert(s.push(p)[i] == s[i]);
    }
    if p.0@ == k {
        assert(s.push(p)[s.len() as int] == p);
    }
    if contains_key(s.push(p), k) {
        let i = choose|i: int| #![trigger s.push(p)[i]] 0 <= i < s.push(p).len() && s.push(p)[i].0@ == k;
        if i < s.len() {
            assert(s[i] == s.push(p)[i]);
        }
    }
}

/// Appending an entry can only add a treasury witness, and adds one exactly
/// when the entry is a positive treasury share.
pub proof fn lemma_treasury_push(s: Seq<(String, TokenAllocation)>, p: (String, TokenAllocation))
    ensures
        has_treasury(s.push(p)) <==> (has_treasury(s) || (p.0@ == treasury_id()
            && p.1.allocated_percent > 0)),
{
    if has_treasury(s) {
        let i = choose|i: int|
            #![trigger s[i]]
            0 <= i < s.len() && s[i].0@ == treasury_id() && s[i].1.allocated_percent > 0;
        assert(s.push(p)[i] == s[i]);
    }
    if p.0@ == treasury_id() && p.1.allocated_percent > 0 {
        assert(s.push(p)[s.len() as int] == p);
    }
    if has_treasury(s.push(p)) {
        let i = choose|i: int|
            #![trigger s.push(p)[i]]
            0 <= i < s.push(p).len() && s.push(p)[i].0@ == treasury_id()
                && s.push(p)[i].1.allocated_percent > 0;
        if i < s.len() {
            assert(s[i] == s.push(p)[i]);
        }
    }
}

/// First index holding `key`, scanning forward.
pub fn find_key<T>(v: &Vec<(String, T)>, key: &String) -> (r: Option<usize>)
    ensures
        match r {
            Option::Some(i) => i < v@.len() && v@[i as int].0@ == key@,
            Option::None => !contains_key(v@, key@),
        },
{
    let mut i: usize = 0;
    while i < v.len()
        invariant
            i <= v@.len(),
            forall|j: int| #![trigger v@[j]] 0 <= j < i ==> v@[j].0@ != key@,
        decreases v@.len() - i,
    {
        if v[i].0 == *key {
            return Option::Some(i);
        }
        i = i + 1;
    }
    Option::None
}

// ---------------------------------------------------------------------------
// Registration
// ---------------------------------------------------------------------------

/// The ledger forms of the submitted allocations, in submission order.
pub open spec fn converted_allocs(
    input: Seq<(String, WrappedTokenAllocation)>,
) -> Seq<(String, TokenAllocation)> {
    input.map_values(|p: (String, WrappedTokenAllocation)| (p.0, mk_alloc(p.1)))
}

/// The first error the admission scan reports, walking `rest` with the
/// already-admitted entries in `seen`: a record that breaks the per-record
/// rule, a repeated beneficiary, or a running total beyond the percent base.
pub open spec fn scan_error(
    seen: Seq<(String, TokenAllocation)>,
    rest: Seq<(String, WrappedTokenAllocation)>,
) -> Option<FactoryError>
    decreases rest.len(),
{
    if rest.len() == 0 {
        Option::None
    } else {
        let a = mk_alloc(rest[0].1);
        if !alloc_wf(a) {
            Option::Some(FactoryError::InvalidAllocation)
        } else if contains_key(seen, rest[0].0@) {
            Option::Some(FactoryError::InvalidAllocationSet)
        } else if sum_allocated(seen) + a.allocated_percent > MAX_SUPPLY_PERCENT {
            Option::Some(FactoryError::InvalidAllocationSet)
        } else {
            scan_error(seen.push((rest[0].0, a)), rest.drop_first())
        }
    }
}

/// Exactly when and why a registration is rejected, in the order the checks
/// run: deposit gate, admission scan, treasury entry, exact total, positive
/// supply, well-formed identifiers, and no existing record under the key.
pub open spec fn register_error(
    f: TokenFactory,
    ft_contract: String,
    deployer_contract: String,
    total_supply: u128,
    input: Seq<(String, WrappedTokenAllocation)>,
    deposit: u128,
) -> Option<FactoryError> {
    let conv = converted_allocs(input);
    if deposit < MIN_REGISTER_DEPOSIT {
        Option::Some(FactoryError::DepositTooLow)
    } else if scan_error(Seq::empty(), input) is Some {
        scan_error(Seq::empty(), input)
    } else if !has_treasury(conv) {
        Option::Some(FactoryError::InvalidAllocationSet)
    } else if sum_allocated(conv) != MAX_SUPPLY_PERCENT {
        Option::Some(FactoryError::InvalidAllocationSet)
    } else if total_supply == 0 {
        Option::Some(FactoryError::InvalidAllocationSet)
    } else if !valid_account_id(ft_contract@) {
        Option::Some(FactoryError::InvalidAccountId)
    } else if !valid_account_id(deployer_contract@) {
        Option::Some(FactoryError::InvalidAccountId)
    } else if contains_key(f.tokens@, ft_contract@) {
        Option::Some(FactoryError::AlreadyRegistered)
    } else {
        Option::None
    }
}

/// The record a successful registration inserts.
pub open spec fn new_record_matches(
    st: State,
    ft_contract: String,
    deployer_contract: String,
    total_supply: u128,
    token_name: String,
    symbol: String,
    icon: Option<String>,
    reference: Option<String>,
    reference_hash: Option<Vec<u8>>,
    input: Seq<(String, WrappedTokenAllocation)>,
    decimals: u8,
    signer: String,
) -> bool {
    &&& st.ft_contract == ft_contract
    &&& st.ft_metadata == Option::Some(
        FTMetadata {
            total_supply,
            token_name,
            symbol,
            icon,
            reference,
            reference_hash,
            decimals,
        },
    )
    &&& st.ft_deployer == deployer_contract
    &&& st.creator == signer
    &&& st.allocations@ == converted_allocs(input)
    &&& st.ft_contract_deployed == false
    &&& st.deployer_contract_deployed == false
    &&& st.ft_issued == false
    &&& st.allocation_initialized == false
}

/// How the reverse index changes when `id` is recorded for `user`: nothing
/// if already present, one entry appended to the user's list, or one new
/// user row holding just `id`.
pub open spec fn user_token_added(
    pre: Seq<(String, Vec<String>)>,
    post: Seq<(String, Vec<String>)>,
    user: Seq<char>,
    id: Seq<char>,
) -> bool {
    if contains_key(pre, user) {
        let i = key_index(pre, user);
        if contains_str(pre[i].1@, id) {
            post == pre
        } else {
            &&& post.len() == pre.len()
            &&& forall|j: int| #![trigger post[j]] 0 <= j < pre.len() && j != i ==> post[j] == pre[j]
            &&& post[i].0 == pre[i].0
            &&& post[i].1@.len() == pre[i].1@.len() + 1
            &&& post[i].1@.drop_last() == pre[i].1@
            &&& post[i].1@.last()@ == id
        }
    } else {
        &&& post.len() == pre.len() + 1
        &&& post.drop_last() == pre
        &&& post.last().0@ == user
        &&& post.last().1@.len() == 1
        &&& post.last().1@[0]@ == id
    }
}

/// How the whole factory changes when a registration succeeds: one record
/// appended to the registry and the creator's reverse index extended.
pub open spec fn register_applied(
    pre: TokenFactory,
    post: TokenFactory,
    ft_contract: String,
    deployer_contract: String,
    total_supply: u128,
    token_name: String,
    symbol: String,
    icon: Option<String>,
    reference: Option<String>,
    reference_hash: Option<Vec<u8>>,
    input: Seq<(String, WrappedTokenAllocation)>,
    decimals: u8,
    signer: String,
) -> bool {
    &&& post.owner_id == pre.owner_id
    &&& post.admins == pre.admins
    &&& post.tokens@.len() == pre.tokens@.len() + 1
    &&& post.tokens@.drop_last() == pre.tokens@
    &&& post.tokens@.last().0 == ft_contract
    &&& new_record_matches(
        post.tokens@.last().1,
        ft_contract,
        deployer_contract,
        total_supply,
        token_name,
        symbol,
        icon,
        reference,
        reference_hash,
        input,
        decimals,
        signer,
    )
    &&& user_token_added(pre.user_token_map@, post.user_token_map@, signer@, ft_contract@)
}

impl TokenFactory {
    /// Records `id` in `account_id`'s reverse index, assuming the token is
    /// registered.
    pub(crate) fn add_user_token(&mut self, account_id: &String, token_id: &String)
        requires
            old(self).wf(),
            contains_key(old(self).tokens@, token_id@),
        ensures
            final(self).wf(),
            final(self).owner_id == old(self).owner_id,
            final(self).admins == old(self).admins,
            final(self).tokens == old(self).tokens,
            user_token_added(
                old(self).user_token_map@,
                final(self).user_token_map@,
                account_id@,
                token_id@,
            ),
    {
        let idx_opt = find_key(&self.user_token_map, account_id);
        match idx_opt {
            Option::Some(i) => {
                proof {
                    lemma_key_index_unique(self.user_token_map@, account_id@, i as int);
                }
                if vec_contains_str(&self.user_token_map[i].1, token_id) {
                    return ;
                }
                let (k, mut set) = self.user_token_map.remove(i);
                set.push(token_id.clone());
                self.user_token_map.insert(i, (k, set));
                proof {
                    let pre = old(self).user_token_map@;
                    let post = self.user_token_map@;
                    let ii = i as int;
                    assert forall|j: int| 0 <= j < pre.len() && j != ii implies #[trigger] post[j]
                        == pre[j] by {
                        if j < ii {
                            assert(pre.remove(ii)[j] == pre[j]);
                            assert(post[j] == pre.remove(ii)[j]);
                        } else {
                            assert(pre.remove(ii)[j - 1] == pre[j]);
                            assert(post[j] == pre.remove(ii)[j - 1]);
                        }
                    }
                    assert(post[ii].1@.drop_last() =~= pre[ii].1@);
                    assert(strs_unique(post[ii].1@)) by {
                        let s = post[ii].1@;
                        assert forall|a: int, b: int|
                            #![trigger s[a], s[b]]
                            0 <= a < b < s.len() implies s[a]@ != s[b]@ by {
                            if b < s.len() - 1 {
                                assert(pre[ii].1@[a]@ != pre[ii].1@[b]@);
                            } else {
                                assert(!contains_str(pre[ii].1@, token_id@));
                                assert(pre[ii].1@[a]@ != token_id@);
                            }
                        }
                    }
                }
            },
            Option::None => {
                let mut set: Vec<String> = Vec::new();
                set.push(token_id.clone());
                self.user_token_map.push((account_id.clone(), set));
                proof {
                    assert(self.user_token_map@.drop_last() =~= old(self).user_token_map@);
                }
            },
        }
    }

    /// Admits a full tokenomics specification: validates the deposit and the
    /// allocation set, and inserts the record atomically — either the whole
    /// validated record is stored or nothing is.
    pub fn register(
        &mut self,
        ft_contract: String,
        deployer_contract: String,
        total_supply: u128,
        token_name: String,
        symbol: String,
        icon: Option<String>,
        reference: Option<String>,
        reference_hash: Option<Vec<u8>>,
        allocations: Vec<(String, WrappedTokenAllocation)>,
        decimals: u8,
        signer: String,
        deposit: u128,
    ) -> (r: Result<(), FactoryError>)
        requires
            old(self).wf(),
        ensures
            final(self).wf(),
            match r {
                Result::Err(e) => *final(self) == *old(self) && Option::Some(e) == register_error(
                    *old(self),
                    ft_contract,
                    deployer_contract,
                    total_supply,
                    allocations@,
                    deposit,
                ),
                Result::Ok(u) => register_error(
                    *old(self),
                    ft_contract,
                    deployer_contract,
                    total_supply,
                    allocations@,
                    deposit,
                ) is None && register_applied(
                    *old(self),
                    *final(self),
                    ft_contract,
                    deployer_contract,
                    total_supply,
                    token_name,
                    symbol,
                    icon,
                    reference,
                    reference_hash,
                    allocations@,
                    decimals,
                    signer,
                ),
            },
    {
        if deposit < MIN_REGISTER_DEPOSIT {
            return Result::Err(FactoryError::DepositTooLow);
        }
        let ghost input = allocations@;
        let treasury = treasury_account();
        let mut built: Vec<(String, TokenAllocation)> = Vec::new();
        let mut total: u64 = 0;
        let mut treasury_found = false;
        let mut idx: usize = 0;
        proof {
            assert(input.skip(0) =~= input);
            assert(converted_allocs(input.take(0)) =~= Seq::<(String, TokenAllocation)>::empty());
        }
        while idx < allocations.len()
            invariant
                *self == *old(self),
                old(self).wf(),
                deposit >= MIN_REGISTER_DEPOSIT,
                input == allocations@,
                treasury@ == treasury_id(),
                idx <= input.len(),
                built@ == converted_allocs(input.take(idx as int)),
                scan_error(Seq::empty(), input) == scan_error(built@, input.skip(idx as int)),
                total == sum_allocated(built@),
                total <= MAX_SUPPLY_PERCENT,
                keys_unique(built@),
                allocs_wf(built@),
                treasury_found == has_treasury(built@),
            decreases input.len() - idx,
        {
            let key = &allocations[idx].0;
            let w = allocations[idx].1;
            let rec_ok = w.vesting_start_time <= w.vesting_end_time
                && w.vesting_interval <= w.vesting_end_time - w.vesting_start_time
                && w.initial_release <= w.allocated_percent;
            proof {
                assert(input.skip(idx as int)[0] == input[idx as int]);
            }
            if !rec_ok {
                return Result::Err(FactoryError::InvalidAllocation);
            }
            if find_key(&built, key).is_some() {
                return Result::Err(FactoryError::InvalidAllocationSet);
            }
            proof {
                lemma_sum_nonneg(built@);
            }
            if w.allocated_percent > MAX_SUPPLY_PERCENT - total {
                return Result::Err(FactoryError::InvalidAllocationSet);
            }
            total = total + w.allocated_percent;
            if *key == treasury && w.allocated_percent > 0 {
                treasury_found = true;
            }
            let entry = (
                key.clone(),
                TokenAllocation {
                    allocated_percent: w.allocated_percent,
                    initial_release: w.initial_release,
                    vesting_start_time: w.vesting_start_time,
                    vesting_end_time: w.vesting_end_time,
                    vesting_interval: w.vesting_interval,
                    claimed: 0,
                },
            );
            proof {
                let p = (input[idx as int].0, mk_alloc(input[idx as int].1));
                lemma_sum_push(built@, p);
                lemma_treasury_push(built@, p);
                assert(input.skip(idx as int).drop_first() =~= input.skip(idx as int + 1));
                assert(built@.push(p) =~= converted_allocs(input.take(idx as int + 1)));
            }
            built.push(entry);
            idx = idx + 1;
        }
        proof {
            assert(input.skip(input.len() as int) =~= Seq::<(String, WrappedTokenAllocation)>::empty());
            assert(built@ == converted_allocs(input)) by {
                assert(input.take(input.len() as int) =~= input);
            }
        }
        if !treasury_found {
            return Result::Err(FactoryError::InvalidAllocationSet);
        }
        if total != MAX_SUPPLY_PERCENT {
            return Result::Err(FactoryError::InvalidAllocationSet);
        }
        if total_supply == 0 {
            return Result::Err(FactoryError::InvalidAllocationSet);
        }
        if !is_valid_account_id(ft_contract.as_str()) {
            return Result::Err(FactoryError::InvalidAccountId);
        }
        if !is_valid_account_id(deployer_contract.as_str()) {
            return Result::Err(FactoryError::InvalidAccountId);
        }
        if find_key(&self.tokens, &ft_contract).is_some() {
            return Result::Err(FactoryError::AlreadyRegistered);
        }
        let key = ft_contract.clone();
        let id_for_user = ft_contract.clone();
        let st = State {
            ft_contract,
            ft_metadata: Option::Some(
                FTMetadata {
                    total_supply,
                    token_name,
                    symbol,
                    icon,
                    reference,
                    reference_hash,
                    decimals,
                },
            ),
            ft_deployer: deployer_contract,
            creator: signer.clone(),
            allocations: built,
            ft_contract_deployed: false,
            deployer_contract_deployed: false,
            ft_issued: false,
            allocation_initialized: false,
        };
        self.tokens.push((key, st));
        proof {
            assert(self.tokens@.drop_last() =~= old(self).tokens@);
            assert forall|i: int| 0 <= i < self.tokens@.len() implies #[trigger] self.tokens@[i].1.ft_contract@
                == self.tokens@[i].0@ && record_ok(self.tokens@[i].1) by {
                if i < old(self).tokens@.len() {
                    assert(self.tokens@[i] == old(self).tokens@[i]);
                }
            }
            assert forall|i: int, j: int|
                0 <= i < self.user_token_map@.len() && 0 <= j < self.user_token_map@[i].1@.len()
                implies contains_key(self.tokens@, #[trigger] self.user_token_map@[i].1@[j]@) by {
                lemma_contains_push(
                    old(self).tokens@,
                    self.tokens@.last(),
                    self.user_token_map@[i].1@[j]@,
                );
            }
            assert(keys_unique(self.tokens@)) by {
                let s = self.tokens@;
                assert forall|a: int, b: int|
                    #![trigger s[a], s[b]]
                    0 <= a < b < s.len() implies s[a].0@ != s[b].0@ by {
                    if b < s.len() - 1 {
                        assert(old(self).tokens@[a].0@ != old(self).tokens@[b].0@);
                    } else {
                        assert(!contains_key(old(self).tokens@, s[b].0@));
                        assert(old(self).tokens@[a] == s[a]);
                    }
                }
            }
            assert(self.tokens@[self.tokens@.len() - 1].0@ == id_for_user@);
            assert(contains_key(self.tokens@, id_for_user@));
        }
        self.add_user_token(&signer, &id_for_user);
        Result::Ok(())
    }

    /// Records one token for one account in the reverse index; the token
    /// must already be registered, keeping the index free of dangling
    /// entries.
    pub fn internal_add_user_token(&mut self, account_id: String, token_id: String) -> (r: Result<
        (),
        FactoryError,
    >)
        requires
            old(self).wf(),
        ensures
            final(self).wf(),
            final(self).owner_id == old(self).owner_id,
            final(self).admins == old(self).admins,
            final(self).tokens == old(self).tokens,
            match r {
                Result::Err(e) => {
                    &&& *final(self) == *old(self)
                    &&& e == FactoryError::NotRegistered
                    &&& !contains_key(old(self).tokens@, token_id@)
                },
                Result::Ok(u) => {
                    &&& contains_key(old(self).tokens@, token_id@)
                    &&& user_token_added(
                        old(self).user_token_map@,
                        final(self).user_token_map@,
                        account_id@,
                        token_id@,
                    )
                },
            },
    {
        if find_key(&self.tokens, &token_id).is_none() {
            return Result::Err(FactoryError::NotRegistered);
        }
        self.add_user_token(&account_id, &token_id);
        Result::Ok(())
    }
}

/// Whether some element of `v` equals `key`.
pub fn vec_contains_str(v: &Vec<String>, key: &String) -> (r: bool)
    ensures
        r == contains_str(v@, key@),
{
    let mut i: usize = 0;
    while i < v.len()
        invariant
            i <= v@.len(),
            forall|j: int| #![trigger v@[j]] 0 <= j < i ==> v@[j]@ != key@,
        decreases v@.len() - i,
    {
        if v[i] == *key {
            return true;
        }
        i = i + 1;
    }
    false
}

/// First index whose element equals `key`, scanning forward.
pub fn find_str(v: &Vec<String>, key: &String) -> (r: Option<usize>)
    ensures
        match r {
            Option::Some(i) => i < v@.len() && v@[i as int]@ == key@,
            Option::None => !contains_str(v@, key@),
        },
{
    let mut i: usize = 0;
    while i < v.len()
        invariant
            i <= v@.len(),
            forall|j: int| #![trigger v@[j]] 0 <= j < i ==> v@[j]@ != key@,
        decreases v@.len() - i,
    {
        if v[i] == *key {
            return Option::Some(i);
        }
        i = i + 1;
    }
    Option::None
}

/// The reverse index associates `id` with `user`.
pub open spec fn user_has_token(
    m: Seq<(String, Vec<String>)>,
    user: Seq<char>,
    id: Seq<char>,
) -> bool {
    exists|i: int, j: int|
        #![trigger m[i].1@[j]]
        0 <= i < m.len() && m[i].0@ == user && 0 <= j < m[i].1@.len() && m[i].1@[j]@ == id
}

/// What one reverse-index insertion does to the association set: the new
/// pair is present, old pairs stay, and nothing else appears.
pub proof fn lemma_user_token_added_facts(
    pre: Seq<(String, Vec<String>)>,
    post: Seq<(String, Vec<String>)>,
    user: Seq<char>,
    id: Seq<char>,
)
    requires
        keys_unique(pre),
        user_token_added(pre, post, user, id),
    ensures
        user_has_token(post, user, id),
        forall|u: Seq<char>, t: Seq<char>|
            #[trigger] user_has_token(pre, u, t) ==> user_has_token(post, u, t),
        forall|u: Seq<char>, t: Seq<char>|
            #[trigger] user_has_token(post, u, t) ==> user_has_token(pre, u, t) || (u == user && t
                == id),
{
    if contains_key(pre, user) {
        let i = key_index(pre, user);
        if contains_str(pre[i].1@, id) {
            let j = choose|j: int|
                #![trigger pre[i].1@[j]]
                0 <= j < pre[i].1@.len() && pre[i].1@[j]@ == id;
            assert(pre[i].1@[j]@ == id);
            assert(user_has_token(post, user, id));
        } else {
            let newlen = post[i].1@.len() - 1;
            assert(post[i].1@[newlen]@ == id);
            assert(user_has_token(post, user, id));
            assert forall|u: Seq<char>, t: Seq<char>| #[trigger]
                user_has_token(pre, u, t) implies user_has_token(post, u, t) by {
                let (a, b): (int, int) = choose|a: int, b: int|
                    #![trigger pre[a].1@[b]]
                    0 <= a < pre.len() && pre[a].0@ == u && 0 <= b < pre[a].1@.len()
                        && pre[a].1@[b]@ == t;
                if a == i {
                    assert(post[i].1@.drop_last()[b] == pre[i].1@[b]);
                    assert(post[i].1@[b] == pre[i].1@[b]);
                    assert(post[a].1@[b]@ == t);
                } else {
                    assert(post[a] == pre[a]);
                    assert(post[a].1@[b]@ == t);
                }
            }
            assert forall|u: Seq<char>, t: Seq<char>| #[trigger]
                user_has_token(post, u, t) implies user_has_token(pre, u, t) || (u == user && t
                == id) by {
                let (a, b): (int, int) = choose|a: int, b: int|
                    #![trigger post[a].1@[b]]
                    0 <= a < post.len() && post[a].0@ == u && 0 <= b < post[a].1@.len()
                        && post[a].1@[b]@ == t;
                if a == i {
                    if b < newlen {
                        assert(post[i].1@.drop_last()[b] == pre[i].1@[b]);
                        assert(pre[a].1@[b]@ == t);
                        assert(user_has_token(pre, u, t));
                    }
                } else {
                    assert(post[a] == pre[a]);
                    assert(pre[a].1@[b]@ == t);
                    assert(user_has_token(pre, u, t));
                }
            }
        }
    } else {
        let newrow = post.len() - 1;
        assert(post[newrow].1@[0]@ == id);
        assert(user_has_token(post, user, id));
        assert forall|u: Seq<char>, t: Seq<char>| #[trigger]
            user_has_token(pre, u, t) implies user_has_token(post, u, t) by {
            let (a, b): (int, int) = choose|a: int, b: int|
                #![trigger pre[a].1@[b]]
                0 <= a < pre.len() && pre[a].0@ == u && 0 <= b < pre[a].1@.len() && pre[a].1@[b]@
                    == t;
            assert(post.drop_last()[a] == pre[a]);
            assert(post[a] == pre[a]);
            assert(post[a].1@[b]@ == t);
        }
        assert forall|u: Seq<char>, t: Seq<char>| #[trigger]
            user_has_token(post, u, t) implies user_has_token(pre, u, t) || (u == user && t
            == id) by {
            let (a, b): (int, int) = choose|a: int, b: int|
                #![trigger post[a].1@[b]]
                0 <= a < post.len() && post[a].0@ == u && 0 <= b < post[a].1@.len()
                    && post[a].1@[b]@ == t;
            if a < newrow {
                assert(post.drop_last()[a] == pre[a]);
                assert(post[a] == pre[a]);
                assert(pre[a].1@[b]@ == t);
                assert(user_has_token(pre, u, t));
            }
        }
    }
}

} // verus!

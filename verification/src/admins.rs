//! Administrative surface: clearing the registry, removing a record with
//! its reverse-index entries, tombstoning one record's handed-off data, and
//! managing the admin set. All of it is gated on the owner or an admin.

use vstd::prelude::*;

use crate::registry::{
    find_key, find_str, lemma_key_index_unique, lemma_user_token_added_facts, user_has_token,
    vec_contains_str, TokenFactory,
};
use crate::types::{contains_key, contains_str, key_index, record_ok, strs_unique, FactoryError, State};

verus! {

/// The caller is one of the factory's admins.
pub open spec fn is_admin(f: TokenFactory, caller: Seq<char>) -> bool {
    contains_str(f.admins@, caller)
}

/// How a string list changes when `id` is taken out: the one occurrence is
/// removed (the lists the factory keeps never hold two), or nothing happens.
pub open spec fn str_removed(pre: Seq<String>, post: Seq<String>, id: Seq<char>) -> bool {
    if contains_str(pre, id) {
        exists|k: int|
            #![trigger pre[k]]
            0 <= k < pre.len() && pre[k]@ == id && post == pre.remove(k)
    } else {
        post == pre
    }
}

/// What removal keeps and what it drops.
pub proof fn lemma_str_removed_facts(pre: Seq<String>, post: Seq<String>, id: Seq<char>)
    requires
        strs_unique(pre),
        str_removed(pre, post, id),
    ensures
        strs_unique(post),
        !contains_str(post, id),
        forall|x: Seq<char>| #[trigger] contains_str(post, x) ==> contains_str(pre, x),
        forall|x: Seq<char>| contains_str(pre, x) && x != id ==> #[trigger] contains_str(post, x),
{
    if contains_str(pre, id) {
        let k = choose|k: int|
            #![trigger pre[k]]
            0 <= k < pre.len() && pre[k]@ == id && post == pre.remove(k);
        assert forall|a: int, b: int|
            #![trigger post[a], post[b]]
            0 <= a < b < post.len() implies post[a]@ != post[b]@ by {
            let pa: int = if a < k {
                a
            } else {
                a + 1
            };
            let pb: int = if b < k {
                b
            } else {
                b + 1
            };
            assert(post[a] == pre[pa]);
            assert(post[b] == pre[pb]);
        }
        assert forall|x: Seq<char>| #[trigger] contains_str(post, x) implies contains_str(
            pre,
            x,
        ) by {
            let a = choose|a: int| #![trigger post[a]] 0 <= a < post.len() && post[a]@ == x;
            let pa: int = if a < k {
                a
            } else {
                a + 1
            };
            assert(post[a] == pre[pa]);
        }
        assert(!contains_str(post, id)) by {
            if contains_str(post, id) {
                let a = choose|a: int| #![trigger post[a]] 0 <= a < post.len() && post[a]@ == id;
                let pa: int = if a < k {
                    a
                } else {
                    a + 1
                };
                assert(post[a] == pre[pa]);
                assert(pre[pa]@ == id && pre[k]@ == id && pa != k);
                if pa < k {
                    assert(pre[pa]@ != pre[k]@);
                } else {
                    assert(pre[k]@ != pre[pa]@);
                }
            }
        }
        assert forall|x: Seq<char>| contains_str(pre, x) && x != id implies #[trigger] contains_str(
            post,
            x,
        ) by {
            let a = choose|a: int| #![trigger pre[a]] 0 <= a < pre.len() && pre[a]@ == x;
            assert(pre[k]@ == id);
            assert(a != k);
            let qa: int = if a < k {
                a
            } else {
                a - 1
            };
            assert(post[qa] == pre[a]);
        }
    }
}

/// Exactly when and why an admin removal of a record is refused.
pub open spec fn unregister_error(f: TokenFactory, caller: Seq<char>, id: Seq<char>) -> Option<
    FactoryError,
> {
    if !is_admin(f, caller) {
        Option::Some(FactoryError::NotAdmin)
    } else if !contains_key(f.tokens@, id) {
        Option::Some(FactoryError::NotRegistered)
    } else {
        Option::None
    }
}

impl TokenFactory {
    /// Clears the whole registry and with it the reverse index (a pruned
    /// registry must never leave dangling index entries). Admin-only.
    pub fn reset(&mut self, caller: String) -> (r: Result<(), FactoryError>)
        requires
            old(self).wf(),
        ensures
            final(self).wf(),
            match r {
                Result::Err(e) => {
                    &&& *final(self) == *old(self)
                    &&& e == FactoryError::NotAdmin
                    &&& !is_admin(*old(self), caller@)
                },
                Result::Ok(u) => {
                    &&& is_admin(*old(self), caller@)
                    &&& final(self).owner_id == old(self).owner_id
                    &&& final(self).admins == old(self).admins
                    &&& final(self).tokens@.len() == 0
                    &&& final(self).user_token_map@.len() == 0
                },
            },
    {
        if !vec_contains_str(&self.admins, &caller) {
            return Result::Err(FactoryError::NotAdmin);
        }
        self.tokens = Vec::new();
        self.user_token_map = Vec::new();
        Result::Ok(())
    }

    /// Removes one record and prunes its identifier from every account's
    /// reverse index, keeping both structures consistent. Admin-only.
    pub fn unregister(&mut self, caller: String, ft_contract: String) -> (r: Result<
        (),
        FactoryError,
    >)
        requires
            old(self).wf(),
        ensures
            final(self).wf(),
            match r {
                Result::Err(e) => *final(self) == *old(self) && Option::Some(e)
                    == unregister_error(*old(self), caller@, ft_contract@),
                Result::Ok(u) => {
                    &&& unregister_error(*old(self), caller@, ft_contract@) is None
                    &&& final(self).owner_id == old(self).owner_id
                    &&& final(self).admins == old(self).admins
                    &&& final(self).tokens@ == old(self).tokens@.remove(
                        key_index(old(self).tokens@, ft_contract@),
                    )
                    &&& final(self).user_token_map@.len() == old(self).user_token_map@.len()
                    &&& forall|j: int|
                        #![trigger final(self).user_token_map@[j]]
                        0 <= j < old(self).user_token_map@.len()
                            ==> final(self).user_token_map@[j].0 == old(self).user_token_map@[j].0
                            && str_removed(
                            old(self).user_token_map@[j].1@,
                            final(self).user_token_map@[j].1@,
                            ft_contract@,
                        )
                },
            },
    {
        if !vec_contains_str(&self.admins, &caller) {
            return Result::Err(FactoryError::NotAdmin);
        }
        let idx = match find_key(&self.tokens, &ft_contract) {
            Option::None => {
                return Result::Err(FactoryError::NotRegistered);
            },
            Option::Some(i) => i,
        };
        proof {
            lemma_key_index_unique(self.tokens@, ft_contract@, idx as int);
        }
        self.tokens.remove(idx);
        let ghost gidx = idx as int;
        let ghost pre_map = old(self).user_token_map@;
        let mut j: usize = 0;
        while j < self.user_token_map.len()
            invariant
                old(self).wf(),
                0 <= gidx < old(self).tokens@.len(),
                gidx == key_index(old(self).tokens@, ft_contract@),
                old(self).tokens@[gidx].0@ == ft_contract@,
                self.owner_id == old(self).owner_id,
                self.admins == old(self).admins,
                self.tokens@ == old(self).tokens@.remove(gidx),
                pre_map == old(self).user_token_map@,
                self.user_token_map@.len() == pre_map.len(),
                j <= pre_map.len(),
                forall|k: int|
                    #![trigger self.user_token_map@[k]]
                    0 <= k < j ==> self.user_token_map@[k].0 == pre_map[k].0 && str_removed(
                        pre_map[k].1@,
                        self.user_token_map@[k].1@,
                        ft_contract@,
                    ),
                forall|k: int|
                    #![trigger self.user_token_map@[k]]
                    j <= k < pre_map.len() ==> self.user_token_map@[k] == pre_map[k],
            decreases pre_map.len() - j,
        {
            let ghost pre_iter = self.user_token_map@;
            let (k, mut set) = self.user_token_map.remove(j);
            let ghost mid = self.user_token_map@;
            let ghost sold = set@;
            match find_str(&set, &ft_contract) {
                Option::Some(p) => {
                    set.remove(p);
                    proof {
                        assert(sold[p as int]@ == ft_contract@);
                        assert(contains_str(sold, ft_contract@));
                        assert(str_removed(sold, set@, ft_contract@));
                    }
                },
                Option::None => {
                    proof {
                        assert(str_removed(sold, set@, ft_contract@));
                    }
                },
            }
            self.user_token_map.insert(j, (k, set));
            proof {
                let jj = j as int;
                let cur = self.user_token_map@;
                assert forall|k2: int| 0 <= k2 < pre_map.len() && k2 != jj implies #[trigger] cur[k2]
                    == pre_iter[k2] by {
                    if k2 < jj {
                        assert(cur[k2] == mid[k2]);
                        assert(mid[k2] == pre_iter[k2]);
                    } else {
                        assert(cur[k2] == mid[k2 - 1]);
                        assert(mid[k2 - 1] == pre_iter[k2]);
                    }
                }
                assert(cur[jj] == (k, set));
                assert(pre_iter[jj] == pre_map[jj]);
                assert(cur[jj].0 == pre_map[jj].0);
                assert(str_removed(pre_map[jj].1@, cur[jj].1@, ft_contract@));
            }
            j = j + 1;
        }
        proof {
            let post_t = self.tokens@;
            let pre_t = old(self).tokens@;
            let cur = self.user_token_map@;
            assert forall|a: int, b: int|
                #![trigger post_t[a], post_t[b]]
                0 <= a < b < post_t.len() implies post_t[a].0@ != post_t[b].0@ by {
                let pa: int = if a < gidx {
                    a
                } else {
                    a + 1
                };
                let pb: int = if b < gidx {
                    b
                } else {
                    b + 1
                };
                assert(post_t[a] == pre_t[pa]);
                assert(post_t[b] == pre_t[pb]);
            }
            assert forall|a: int| #![trigger post_t[a]] 0 <= a < post_t.len() implies post_t[a].1.ft_contract@
                == post_t[a].0@ && record_ok(post_t[a].1) by {
                let pa: int = if a < gidx {
                    a
                } else {
                    a + 1
                };
                assert(post_t[a] == pre_t[pa]);
            }
            assert forall|a: int, b: int|
                #![trigger cur[a], cur[b]]
                0 <= a < b < cur.len() implies cur[a].0@ != cur[b].0@ by {
                assert(cur[a].0 == pre_map[a].0);
                assert(cur[b].0 == pre_map[b].0);
            }
            assert forall|a: int| #![trigger cur[a]] 0 <= a < cur.len() implies strs_unique(
                cur[a].1@,
            ) by {
                lemma_str_removed_facts(pre_map[a].1@, cur[a].1@, ft_contract@);
            }
            assert forall|a: int, b: int|
                0 <= a < cur.len() && 0 <= b < cur[a].1@.len() implies contains_key(
                post_t,
                #[trigger] cur[a].1@[b]@,
            ) by {
                lemma_str_removed_facts(pre_map[a].1@, cur[a].1@, ft_contract@);
                let x = cur[a].1@[b]@;
                assert(contains_str(cur[a].1@, x));
                assert(contains_str(pre_map[a].1@, x));
                let bp = choose|bp: int|
                    #![trigger pre_map[a].1@[bp]]
                    0 <= bp < pre_map[a].1@.len() && pre_map[a].1@[bp]@ == x;
                assert(contains_key(pre_t, pre_map[a].1@[bp]@));
                assert(x != ft_contract@);
                let w = key_index(pre_t, x);
                assert(0 <= w < pre_t.len() && pre_t[w].0@ == x);
                assert(w != gidx);
                let qa: int = if w < gidx {
                    w
                } else {
                    w - 1
                };
                assert(post_t[qa] == pre_t[w]);
            }
        }
        Result::Ok(())
    }

    /// Tombstones one record by hand: metadata to absent and the ledger
    /// emptied, flags untouched. Admin-only.
    pub fn clear_metadata(&mut self, caller: String, ft_contract: String) -> (r: Result<
        (),
        FactoryError,
    >)
        requires
            old(self).wf(),
        ensures
            final(self).wf(),
            match r {
                Result::Err(e) => *final(self) == *old(self) && Option::Some(e)
                    == unregister_error(*old(self), caller@, ft_contract@),
                Result::Ok(u) => {
                    &&& unregister_error(*old(self), caller@, ft_contract@) is None
                    &&& final(self).owner_id == old(self).owner_id
                    &&& final(self).admins == old(self).admins
                    &&& final(self).user_token_map == old(self).user_token_map
                    &&& final(self).tokens@.len() == old(self).tokens@.len()
                    &&& forall|j: int|
                        #![trigger final(self).tokens@[j]]
                        0 <= j < old(self).tokens@.len() && j != key_index(
                            old(self).tokens@,
                            ft_contract@,
                        ) ==> final(self).tokens@[j] == old(self).tokens@[j]
                    &&& final(self).tokens@[key_index(old(self).tokens@, ft_contract@)].0 == old(
                        self,
                    ).tokens@[key_index(old(self).tokens@, ft_contract@)].0
                    &&& metadata_cleared(
                        old(self).tokens@[key_index(old(self).tokens@, ft_contract@)].1,
                        final(self).tokens@[key_index(old(self).tokens@, ft_contract@)].1,
                    )
                },
            },
    {
        if !vec_contains_str(&self.admins, &caller) {
            return Result::Err(FactoryError::NotAdmin);
        }
        let idx = match find_key(&self.tokens, &ft_contract) {
            Option::None => {
                return Result::Err(FactoryError::NotRegistered);
            },
            Option::Some(i) => i,
        };
        proof {
            lemma_key_index_unique(self.tokens@, ft_contract@, idx as int);
        }
        let (k, mut st) = self.tokens.remove(idx);
        st.ft_metadata = Option::None;
        st.allocations = Vec::new();
        self.tokens.insert(idx, (k, st));
        proof {
            let pre = old(self).tokens@;
            let post = self.tokens@;
            let ii = idx as int;
            assert forall|j: int| 0 <= j < pre.len() && j != ii implies #[trigger] post[j]
                == pre[j] by {
                if j < ii {
                    assert(pre.remove(ii)[j] == pre[j]);
                    assert(post[j] == pre.remove(ii)[j]);
                } else {
                    assert(pre.remove(ii)[j - 1] == pre[j]);
                    assert(post[j] == pre.remove(ii)[j - 1]);
                }
            }
            assert(post[ii].0 == pre[ii].0);
            assert forall|a: int, b: int|
                #![trigger post[a], post[b]]
                0 <= a < b < post.len() implies post[a].0@ != post[b].0@ by {
                assert(post[a].0 == pre[a].0);
                assert(post[b].0 == pre[b].0);
            }
            assert forall|a: int, b: int|
                0 <= a < self.user_token_map@.len() && 0 <= b
                    < self.user_token_map@[a].1@.len() implies contains_key(
                post,
                #[trigger] self.user_token_map@[a].1@[b]@,
            ) by {
                let id2 = self.user_token_map@[a].1@[b]@;
                assert(contains_key(pre, id2));
                let w = key_index(pre, id2);
                assert(pre[w].0@ == id2);
                assert(post[w].0 == pre[w].0);
            }
        }
        Result::Ok(())
    }

    /// Grants admin rights; only the owner may. A repeated grant changes
    /// nothing.
    pub fn add_admin(&mut self, caller: String, account_id: String) -> (r: Result<
        (),
        FactoryError,
    >)
        requires
            old(self).wf(),
        ensures
            final(self).wf(),
            match r {
                Result::Err(e) => {
                    &&& *final(self) == *old(self)
                    &&& e == FactoryError::NotOwner
                    &&& caller@ != old(self).owner_id@
                },
                Result::Ok(u) => {
                    &&& caller@ == old(self).owner_id@
                    &&& final(self).owner_id == old(self).owner_id
                    &&& final(self).tokens == old(self).tokens
                    &&& final(self).user_token_map == old(self).user_token_map
                    &&& if contains_str(old(self).admins@, account_id@) {
                        final(self).admins == old(self).admins
                    } else {
                        final(self).admins@.len() == old(self).admins@.len() + 1
                            && final(self).admins@.drop_last() == old(self).admins@
                            && final(self).admins@.last()@ == account_id@
                    }
                },
            },
    {
        if !(caller == self.owner_id) {
            return Result::Err(FactoryError::NotOwner);
        }
        if vec_contains_str(&self.admins, &account_id) {
            return Result::Ok(());
        }
        self.admins.push(account_id);
        proof {
            assert(self.admins@.drop_last() =~= old(self).admins@);
            let post = self.admins@;
            assert forall|a: int, b: int|
                #![trigger post[a], post[b]]
                0 <= a < b < post.len() implies post[a]@ != post[b]@ by {
                if b < post.len() - 1 {
                    assert(old(self).admins@[a]@ != old(self).admins@[b]@);
                } else {
                    assert(old(self).admins@[a] == post[a]);
                }
            }
        }
        Result::Ok(())
    }

    /// Revokes admin rights; only the owner may. Revoking an absent admin
    /// changes nothing.
    pub fn remove_admin(&mut self, caller: String, account_id: String) -> (r: Result<
        (),
        FactoryError,
    >)
        requires
            old(self).wf(),
        ensures
            final(self).wf(),
            match r {
                Result::Err(e) => {
                    &&& *final(self) == *old(self)
                    &&& e == FactoryError::NotOwner
                    &&& caller@ != old(self).owner_id@
                },
                Result::Ok(u) => {
                    &&& caller@ == old(self).owner_id@
                    &&& final(self).owner_id == old(self).owner_id
                    &&& final(self).tokens == old(self).tokens
                    &&& final(self).user_token_map == old(self).user_token_map
                    &&& str_removed(old(self).admins@, final(self).admins@, account_id@)
                },
            },
    {
        if !(caller == self.owner_id) {
            return Result::Err(FactoryError::NotOwner);
        }
        match find_str(&self.admins, &account_id) {
            Option::None => Result::Ok(()),
            Option::Some(p) => {
                self.admins.remove(p);
                proof {
                    assert(old(self).admins@[p as int]@ == account_id@);
                    assert(contains_str(old(self).admins@, account_id@));
                    lemma_str_removed_facts(old(self).admins@, self.admins@, account_id@);
                }
                Result::Ok(())
            },
        }
    }
}

/// Some allocator `u` of some token `t` lies in the scanned range: a row
/// `y` with `lo <= y`, before row `y_hi` (or in row `y_hi` before entry
/// `j_hi`), whose key is `t` and whose ledger names `u`.
pub open spec fn allocator_pair_in(
    tokens: Seq<(String, State)>,
    lo: int,
    y_hi: int,
    j_hi: int,
    u: Seq<char>,
    t: Seq<char>,
) -> bool {
    exists|y: int, k: int|
        #![trigger tokens[y].1.allocations@[k]]
        lo <= y < tokens.len() && 0 <= k < tokens[y].1.allocations@.len() && (y < y_hi || (y == y_hi
            && k < j_hi)) && tokens[y].0@ == t && tokens[y].1.allocations@[k].0@ == u
}

impl TokenFactory {
    /// Backfills the reverse index from a page of the registry: every
    /// allocator of every token in `[from_index, from_index + limit)` gets
    /// that token recorded. Existing associations are kept, and nothing
    /// outside the page is invented. Admin-only.
    pub fn migrate_data(&mut self, caller: String, from_index: u64, limit: u64) -> (r: Result<
        (),
        FactoryError,
    >)
        requires
            old(self).wf(),
        ensures
            final(self).wf(),
            match r {
                Result::Err(e) => {
                    &&& *final(self) == *old(self)
                    &&& e == FactoryError::NotAdmin
                    &&& !is_admin(*old(self), caller@)
                },
                Result::Ok(u) => {
                    &&& is_admin(*old(self), caller@)
                    &&& final(self).owner_id == old(self).owner_id
                    &&& final(self).admins == old(self).admins
                    &&& final(self).tokens == old(self).tokens
                    &&& forall|u2: Seq<char>, t2: Seq<char>|
                        #[trigger] user_has_token(old(self).user_token_map@, u2, t2)
                            ==> user_has_token(final(self).user_token_map@, u2, t2)
                    &&& forall|u2: Seq<char>, t2: Seq<char>|
                        #[trigger] user_has_token(final(self).user_token_map@, u2, t2)
                            ==> user_has_token(old(self).user_token_map@, u2, t2)
                            || allocator_pair_in(
                            old(self).tokens@,
                            from_index as int,
                            if from_index + limit <= old(self).tokens@.len() {
                                from_index as int + limit
                            } else {
                                old(self).tokens@.len() as int
                            },
                            0,
                            u2,
                            t2,
                        )
                    &&& forall|y: int, k: int|
                        #![trigger old(self).tokens@[y].1.allocations@[k]]
                        from_index <= y < old(self).tokens@.len() && y < from_index + limit && 0
                            <= k < old(self).tokens@[y].1.allocations@.len() ==> user_has_token(
                            final(self).user_token_map@,
                            old(self).tokens@[y].1.allocations@[k].0@,
                            old(self).tokens@[y].0@,
                        )
                },
            },
    {
        if !vec_contains_str(&self.admins, &caller) {
            return Result::Err(FactoryError::NotAdmin);
        }
        let n = self.tokens.len();
        let start: usize = if from_index >= n as u64 {
            n
        } else {
            from_index as usize
        };
        let end: usize = if limit >= (n - start) as u64 {
            n
        } else {
            start + limit as usize
        };
        let ghost gfrom = from_index as int;
        let ghost gend = end as int;
        let ghost toks = self.tokens@;
        let ghost pre_map = old(self).user_token_map@;
        let mut x: usize = start;
        while x < end
            invariant
                self.wf(),
                self.owner_id == old(self).owner_id,
                self.admins == old(self).admins,
                self.tokens == old(self).tokens,
                toks == self.tokens@,
                pre_map == old(self).user_token_map@,
                start <= x <= end,
                end <= toks.len(),
                gend == end as int,
                start as int == if gfrom >= toks.len() as int {
                    toks.len() as int
                } else {
                    gfrom
                },
                gend == if gfrom >= toks.len() as int {
                    toks.len() as int
                } else if gfrom + limit <= toks.len() as int {
                    gfrom + limit
                } else {
                    toks.len() as int
                },
                forall|u2: Seq<char>, t2: Seq<char>|
                    #[trigger] user_has_token(pre_map, u2, t2) ==> user_has_token(
                        self.user_token_map@,
                        u2,
                        t2,
                    ),
                forall|u2: Seq<char>, t2: Seq<char>|
                    #[trigger] user_has_token(self.user_token_map@, u2, t2) ==> user_has_token(
                        pre_map,
                        u2,
                        t2,
                    ) || allocator_pair_in(toks, gfrom, x as int, 0, u2, t2),
                forall|y: int, k: int|
                    #![trigger toks[y].1.allocations@[k]]
                    gfrom <= y < x && 0 <= k < toks[y].1.allocations@.len() ==> user_has_token(
                        self.user_token_map@,
                        toks[y].1.allocations@[k].0@,
                        toks[y].0@,
                    ),
            decreases end - x,
        {
            let mut j: usize = 0;
            while j < self.tokens[x].1.allocations.len()
                invariant
                    self.wf(),
                    self.owner_id == old(self).owner_id,
                    self.admins == old(self).admins,
                    self.tokens == old(self).tokens,
                    toks == self.tokens@,
                    pre_map == old(self).user_token_map@,
                    start <= x < end,
                    end <= toks.len(),
                    gfrom <= x,
                    j <= toks[x as int].1.allocations@.len(),
                    forall|u2: Seq<char>, t2: Seq<char>|
                        #[trigger] user_has_token(pre_map, u2, t2) ==> user_has_token(
                            self.user_token_map@,
                            u2,
                            t2,
                        ),
                    forall|u2: Seq<char>, t2: Seq<char>|
                        #[trigger] user_has_token(self.user_token_map@, u2, t2) ==> user_has_token(
                            pre_map,
                            u2,
                            t2,
                        ) || allocator_pair_in(toks, gfrom, x as int, j as int, u2, t2),
                    forall|y: int, k: int|
                        #![trigger toks[y].1.allocations@[k]]
                        gfrom <= y < toks.len() && 0 <= k < toks[y].1.allocations@.len() && (y < x
                            || (y == x && k < j)) ==> user_has_token(
                            self.user_token_map@,
                            toks[y].1.allocations@[k].0@,
                            toks[y].0@,
                        ),
                decreases toks[x as int].1.allocations@.len() - j,
            {
                let allocator = self.tokens[x].1.allocations[j].0.clone();
                let token_key = self.tokens[x].0.clone();
                let ghost before = self.user_token_map@;
                proof {
                    assert(toks[x as int].0@ == token_key@);
                    assert(contains_key(self.tokens@, token_key@));
                }
                self.add_user_token(&allocator, &token_key);
                proof {
                    lemma_user_token_added_facts(
                        before,
                        self.user_token_map@,
                        allocator@,
                        token_key@,
                    );
                    assert forall|u2: Seq<char>, t2: Seq<char>| #[trigger]
                        user_has_token(self.user_token_map@, u2, t2) implies user_has_token(
                        pre_map,
                        u2,
                        t2,
                    ) || allocator_pair_in(toks, gfrom, x as int, j as int + 1, u2, t2) by {
                        if user_has_token(before, u2, t2) {
                            if !user_has_token(pre_map, u2, t2) {
                                assert(allocator_pair_in(toks, gfrom, x as int, j as int, u2, t2));
                                let (y, k): (int, int) = choose|y: int, k: int|
                                    #![trigger toks[y].1.allocations@[k]]
                                    gfrom <= y < toks.len() && 0 <= k
                                        < toks[y].1.allocations@.len() && (y < x as int || (y
                                        == x as int && k < j as int)) && toks[y].0@ == t2
                                        && toks[y].1.allocations@[k].0@ == u2;
                                assert(allocator_pair_in(toks, gfrom, x as int, j as int + 1, u2, t2));
                            }
                        } else {
                            assert(u2 == allocator@ && t2 == token_key@);
                            assert(toks[x as int].1.allocations@[j as int].0@ == u2);
                            assert(toks[x as int].0@ == t2);
                            assert(allocator_pair_in(toks, gfrom, x as int, j as int + 1, u2, t2));
                        }
                    }
                }
                j = j + 1;
            }
            proof {
                assert forall|u2: Seq<char>, t2: Seq<char>| #[trigger]
                    user_has_token(self.user_token_map@, u2, t2) && !user_has_token(
                    pre_map,
                    u2,
                    t2,
                ) implies allocator_pair_in(toks, gfrom, x as int + 1, 0, u2, t2) by {
                    assert(allocator_pair_in(
                        toks,
                        gfrom,
                        x as int,
                        toks[x as int].1.allocations@.len() as int,
                        u2,
                        t2,
                    ));
                    let (y, k): (int, int) = choose|y: int, k: int|
                        #![trigger toks[y].1.allocations@[k]]
                        gfrom <= y < toks.len() && 0 <= k < toks[y].1.allocations@.len() && (y
                            < x as int || (y == x as int && k < toks[x as int].1.allocations@.len()))
                            && toks[y].0@ == t2 && toks[y].1.allocations@[k].0@ == u2;
                    assert(y < x as int + 1);
                    assert(allocator_pair_in(toks, gfrom, x as int + 1, 0, u2, t2));
                }
            }
            x = x + 1;
        }
        proof {
            if gfrom < toks.len() {
                assert(start as int == gfrom);
            }
            assert forall|u2: Seq<char>, t2: Seq<char>| #[trigger]
                user_has_token(self.user_token_map@, u2, t2) && !user_has_token(
                pre_map,
                u2,
                t2,
            ) implies allocator_pair_in(
                toks,
                gfrom,
                if gfrom + limit <= toks.len() {
                    gfrom + limit
                } else {
                    toks.len() as int
                },
                0,
                u2,
                t2,
            ) by {
                assert(allocator_pair_in(toks, gfrom, end as int, 0, u2, t2));
                let (y, k): (int, int) = choose|y: int, k: int|
                    #![trigger toks[y].1.allocations@[k]]
                    gfrom <= y < toks.len() && 0 <= k < toks[y].1.allocations@.len() && (y
                        < end as int || (y == end as int && k < 0)) && toks[y].0@ == t2
                        && toks[y].1.allocations@[k].0@ == u2;
                assert(allocator_pair_in(
                    toks,
                    gfrom,
                    if gfrom + limit <= toks.len() {
                        gfrom + limit
                    } else {
                        toks.len() as int
                    },
                    0,
                    u2,
                    t2,
                ));
            }
        }
        Result::Ok(())
    }
}

/// The record's handed-off data is gone — metadata absent, ledger empty —
/// and everything else, the flags included, is as it was.
pub open spec fn metadata_cleared(pre: State, post: State) -> bool {
    &&& post.ft_contract == pre.ft_contract
    &&& post.ft_metadata is None
    &&& post.ft_deployer == pre.ft_deployer
    &&& post.creator == pre.creator
    &&& post.allocations@.len() == 0
    &&& post.ft_contract_deployed == pre.ft_contract_deployed
    &&& post.deployer_contract_deployed == pre.deployer_contract_deployed
    &&& post.ft_issued == pre.ft_issued
    &&& post.allocation_initialized == pre.allocation_initialized
}

} // verus!

use vstd::prelude::*;
use crate::derivation::{
    derive_employee_address, derive_ledger_address, derive_treasury_address, employee_seeds,
    ledger_seeds, spec_derive, treasury_seeds,
};
use crate::engine::{claim_outcome_spec, evaluate_claim, lemma_vested_bounds};
use crate::error::ErrorCode;
use crate::identity::{id_eq, Identity};
use crate::state::{EmployeeAccount, VestingAccount, MAX_COMPANY_NAME_LEN};

verus! {

/// Whether some record in a key-value sequence sits under the key `k`.
pub open spec fn has_key<T>(s: Seq<(Identity, T)>, k: Seq<u8>) -> bool {
    exists|i: int| 0 <= i < s.len() && (#[trigger] s[i]).0@ == k
}

/// The index of the record under the key `k`; meaningful only where the key
/// is present and the keys are unique.
pub open spec fn key_index<T>(s: Seq<(Identity, T)>, k: Seq<u8>) -> int {
    choose|i: int| 0 <= i < s.len() && (#[trigger] s[i]).0@ == k
}

/// The record under the key `k`.
pub open spec fn kv_get<T>(s: Seq<(Identity, T)>, k: Seq<u8>) -> T {
    s[key_index(s, k)].1
}

/// No two records share a key.
pub open spec fn unique_keys<T>(s: Seq<(Identity, T)>) -> bool {
    forall|i: int, j: int|
        #![trigger s[i], s[j]]
        0 <= i < j < s.len() ==> s[i].0@ != s[j].0@
}

/// With unique keys, a record found at some index under `k` is the record of
/// `k`: its index is `key_index` and it is `kv_get`.
pub proof fn lemma_key_index_unique<T>(s: Seq<(Identity, T)>, k: Seq<u8>, i: int)
    requires
        unique_keys(s),
        0 <= i < s.len(),
        s[i].0@ == k,
    ensures
        has_key(s, k),
        key_index(s, k) == i,
        kv_get(s, k) == s[i].1,
{
    assert(has_key(s, k));
    let j = key_index(s, k);
    assert(0 <= j < s.len() && s[j].0@ == k);
    if i < j {
        assert(s[i].0@ != s[j].0@);
    } else if j < i {
        assert(s[j].0@ != s[i].0@);
    }
}

/// Appending a record under a fresh key keeps the keys unique.
pub proof fn lemma_unique_push<T>(s: Seq<(Identity, T)>, p: (Identity, T))
    requires
        unique_keys(s),
        !has_key(s, p.0@),
    ensures
        unique_keys(s.push(p)),
{
    let t = s.push(p);
    assert forall|i: int, j: int|
        #![trigger t[i], t[j]]
        0 <= i < j < t.len() implies t[i].0@ != t[j].0@ by {
        if j == s.len() {
            assert(t[i] == s[i]);
            assert(t[j] == p);
            if s[i].0@ == p.0@ {
                assert(has_key(s, p.0@));
            }
        } else {
            assert(t[i] == s[i]);
            assert(t[j] == s[j]);
        }
    }
}

/// Finds the index of the record under `key`, scanning the sequence.
fn find_key<T>(v: &Vec<(Identity, T)>, key: &Identity) -> (r: Option<usize>)
    ensures
        (r matches Some(i) ==> i < v@.len() && v@[i as int].0@ == key@),
        (r is None ==> !has_key(v@, key@)),
{
    let mut i: usize = 0;
    while i < v.len()
        invariant
            i <= v@.len(),
            forall|j: int| 0 <= j < i ==> (#[trigger] v@[j]).0@ != key@,
        decreases v@.len() - i,
    {
        if id_eq(&v[i].0, key) {
            return Some(i);
        }
        i = i + 1;
    }
    None
}

/// A mutable borrow of the record pair at index `i`.
fn pair_at_mut<T>(v: &mut Vec<(Identity, T)>, i: usize) -> (e: &mut (Identity, T))
    requires
        i < old(v).len(),
    ensures
        *e == old(v)@[i as int],
        final(v)@ == old(v)@.update(i as int, *final(e)),
{
    &mut v[i]
}

/// The persistent state of one deployment of the vesting core: a key-value
/// store of ledgers and schedules, addressed solely by derived identities.
pub struct VestingStore {
    /// The program identity under which every identity is derived.
    pub program_id: Identity,
    /// The ledgers, each under its derived identity.
    pub ledgers: Vec<(Identity, VestingAccount)>,
    /// The schedules, each under its derived identity.
    pub employees: Vec<(Identity, EmployeeAccount)>,
}

/// A freshly created ledger record, as ledger initialization fills it.
pub open spec fn new_ledger_matches(
    a: VestingAccount,
    company: Seq<u8>,
    initializer: Seq<u8>,
    mint: Seq<u8>,
    laddr: (Seq<u8>, u8),
    taddr: (Seq<u8>, u8),
) -> bool {
    &&& a.company_name@ == company
    &&& a.owner@ == initializer
    &&& a.mint@ == mint
    &&& a.treasury_token_account@ == taddr.0
    &&& a.token_amount == 0
    &&& a.treasury_bump == taddr.1
    &&& a.bump == laddr.1
}

/// A freshly registered schedule: full allocation still unclaimed, not
/// revoked, window as given.
pub open spec fn new_employee_matches(
    e: EmployeeAccount,
    beneficiary: Seq<u8>,
    ledger: Seq<u8>,
    total_amount: u64,
    start_time: i64,
    cliff_time: i64,
    end_time: i64,
    bump: u8,
) -> bool {
    &&& e.beneficiary@ == beneficiary
    &&& e.vesting_account@ == ledger
    &&& e.total_amount == total_amount
    &&& e.total_withdrawn == 0
    &&& e.start_time == start_time
    &&& e.cliff_time == cliff_time
    &&& e.end_time == end_time
    &&& e.revoked == false
    &&& e.bump == bump
}

/// What ledger initialization does: rejects an over-long name, a failed
/// derivation, or an occupied identity, each without any state change;
/// otherwise appends exactly one fresh ledger under its derived identity and
/// returns that identity.
pub open spec fn init_vesting_post(
    pre: VestingStore,
    post: VestingStore,
    company: Seq<u8>,
    mint: Seq<u8>,
    initializer: Seq<u8>,
    r: Result<Identity, ErrorCode>,
) -> bool {
    if company.len() > MAX_COMPANY_NAME_LEN {
        post == pre && r == Result::<Identity, ErrorCode>::Err(ErrorCode::CompanyNameTooLong)
    } else {
        match spec_derive(ledger_seeds(company), pre.program_id@) {
            Option::None => post == pre && r == Result::<Identity, ErrorCode>::Err(
                ErrorCode::DerivationFailure,
            ),
            Option::Some(laddr) => match spec_derive(treasury_seeds(company), pre.program_id@) {
                Option::None => post == pre && r == Result::<Identity, ErrorCode>::Err(
                    ErrorCode::DerivationFailure,
                ),
                Option::Some(taddr) => if has_key(pre.ledgers@, laddr.0) {
                    post == pre && r == Result::<Identity, ErrorCode>::Err(ErrorCode::AlreadyExists)
                } else {
                    &&& post.ledgers@.len() == pre.ledgers@.len() + 1
                    &&& post.ledgers@ == pre.ledgers@.push(post.ledgers@.last())
                    &&& post.ledgers@.last().0@ == laddr.0
                    &&& new_ledger_matches(
                        post.ledgers@.last().1,
                        company,
                        initializer,
                        mint,
                        laddr,
                        taddr,
                    )
                    &&& r matches Ok(a) && a@ == laddr.0
                },
            },
        }
    }
}

/// What schedule registration does: rejects an unknown ledger, a caller other
/// than the ledger owner, a failed derivation, or an occupied identity, each
/// without any state change; otherwise appends exactly one fresh schedule
/// under its derived identity and returns that identity.
pub open spec fn add_employee_post(
    pre: VestingStore,
    post: VestingStore,
    ledger_ref: Seq<u8>,
    beneficiary: Seq<u8>,
    total_amount: u64,
    start_time: i64,
    cliff_time: i64,
    end_time: i64,
    caller: Seq<u8>,
    r: Result<Identity, ErrorCode>,
) -> bool {
    if !has_key(pre.ledgers@, ledger_ref) {
        post == pre && r == Result::<Identity, ErrorCode>::Err(ErrorCode::AccountNotFound)
    } else if kv_get(pre.ledgers@, ledger_ref).owner@ != caller {
        post == pre && r == Result::<Identity, ErrorCode>::Err(ErrorCode::Unauthorized)
    } else {
        match spec_derive(employee_seeds(beneficiary, ledger_ref), pre.program_id@) {
            Option::None => post == pre && r == Result::<Identity, ErrorCode>::Err(
                ErrorCode::DerivationFailure,
            ),
            Option::Some(eaddr) => if has_key(pre.employees@, eaddr.0) {
                post == pre && r == Result::<Identity, ErrorCode>::Err(ErrorCode::AlreadyExists)
            } else {
                &&& post.employees@.len() == pre.employees@.len() + 1
                &&& post.employees@ == pre.employees@.push(post.employees@.last())
                &&& post.employees@.last().0@ == eaddr.0
                &&& new_employee_matches(
                    post.employees@.last().1,
                    beneficiary,
                    ledger_ref,
                    total_amount,
                    start_time,
                    cliff_time,
                    end_time,
                    eaddr.1,
                )
                &&& r matches Ok(a) && a@ == eaddr.0
            },
        }
    }
}

/// What a claim does: resolves the ledger by company name and the schedule by
/// derivation, rejects a caller that is not the recorded beneficiary or a
/// schedule bound to another ledger, then returns the engine's outcome; on
/// success exactly the claimed amount is added to the schedule's withdrawals
/// and nothing else changes.
pub open spec fn claim_tokens_post(
    pre: VestingStore,
    post: VestingStore,
    company: Seq<u8>,
    beneficiary: Seq<u8>,
    caller: Seq<u8>,
    now: i64,
    r: Result<u64, ErrorCode>,
) -> bool {
    match spec_derive(ledger_seeds(company), pre.program_id@) {
        Option::None => post == pre && r == Result::<u64, ErrorCode>::Err(
            ErrorCode::DerivationFailure,
        ),
        Option::Some(laddr) => if !has_key(pre.ledgers@, laddr.0) {
            post == pre && r == Result::<u64, ErrorCode>::Err(ErrorCode::AccountNotFound)
        } else {
            match spec_derive(employee_seeds(beneficiary, laddr.0), pre.program_id@) {
                Option::None => post == pre && r == Result::<u64, ErrorCode>::Err(
                    ErrorCode::DerivationFailure,
                ),
                Option::Some(eaddr) => if !has_key(pre.employees@, eaddr.0) {
                    post == pre && r == Result::<u64, ErrorCode>::Err(ErrorCode::AccountNotFound)
                } else {
                    let i = key_index(pre.employees@, eaddr.0);
                    let e = pre.employees@[i].1;
                    if e.beneficiary@ != caller || e.vesting_account@ != laddr.0 {
                        post == pre && r == Result::<u64, ErrorCode>::Err(ErrorCode::Unauthorized)
                    } else {
                        match claim_outcome_spec(e, now) {
                            Result::Err(code) => post == pre && r == Result::<u64,
                                ErrorCode,
                            >::Err(code),
                            Result::Ok(c) => {
                                &&& r == Result::<u64, ErrorCode>::Ok(c)
                                &&& post.employees@ == pre.employees@.update(
                                    i,
                                    post.employees@[i],
                                )
                                &&& post.employees@[i].0 == pre.employees@[i].0
                                &&& post.employees@[i].1 == (EmployeeAccount {
                                    total_withdrawn: (e.total_withdrawn + c) as u64,
                                    ..e
                                })
                            },
                        }
                    }
                },
            }
        },
    }
}

/// What revocation does: rejects an unknown ledger, a caller other than the
/// ledger owner, a failed derivation, or an unknown schedule, each without
/// any state change; otherwise sets the schedule's revoked flag and nothing
/// else — in particular the allocation and the withdrawals are untouched.
/// Revoking an already revoked schedule is a no-op success.
pub open spec fn revoke_employee_post(
    pre: VestingStore,
    post: VestingStore,
    ledger_ref: Seq<u8>,
    beneficiary: Seq<u8>,
    caller: Seq<u8>,
    r: Result<(), ErrorCode>,
) -> bool {
    if !has_key(pre.ledgers@, ledger_ref) {
        post == pre && r == Result::<(), ErrorCode>::Err(ErrorCode::AccountNotFound)
    } else if kv_get(pre.ledgers@, ledger_ref).owner@ != caller {
        post == pre && r == Result::<(), ErrorCode>::Err(ErrorCode::Unauthorized)
    } else {
        match spec_derive(employee_seeds(beneficiary, ledger_ref), pre.program_id@) {
            Option::None => post == pre && r == Result::<(), ErrorCode>::Err(
                ErrorCode::DerivationFailure,
            ),
            Option::Some(eaddr) => if !has_key(pre.employees@, eaddr.0) {
                post == pre && r == Result::<(), ErrorCode>::Err(ErrorCode::AccountNotFound)
            } else {
                let i = key_index(pre.employees@, eaddr.0);
                let e = pre.employees@[i].1;
                &&& r == Result::<(), ErrorCode>::Ok(())
                &&& post.employees@ == pre.employees@.update(i, post.employees@[i])
                &&& post.employees@[i].0 == pre.employees@[i].0
                &&& post.employees@[i].1 == (EmployeeAccount { revoked: true, ..e })
            },
        }
    }
}

/// The schedule a beneficiary holds under a ledger, resolved by derivation.
pub open spec fn lookup_employee_spec(
    s: VestingStore,
    ledger_ref: Seq<u8>,
    beneficiary: Seq<u8>,
) -> Option<EmployeeAccount> {
    match spec_derive(employee_seeds(beneficiary, ledger_ref), s.program_id@) {
        Option::None => Option::None,
        Option::Some(eaddr) => if has_key(s.employees@, eaddr.0) {
            Option::Some(kv_get(s.employees@, eaddr.0))
        } else {
            Option::None
        },
    }
}

impl VestingStore {
    /// Well-formedness: identities are unique per kind, and every schedule
    /// keeps its withdrawals within its allocation.
    pub open spec fn wf(self) -> bool {
        &&& unique_keys(self.ledgers@)
        &&& unique_keys(self.employees@)
        &&& forall|i: int|
            0 <= i < self.employees@.len() ==> (#[trigger] self.employees@[i]).1.wf()
    }

    /// An empty store for one program identity.
    pub fn new(program_id: Identity) -> (s: VestingStore)
        ensures
            s.wf(),
            s.program_id@ == program_id@,
            s.ledgers@.len() == 0,
            s.employees@.len() == 0,
    {
        VestingStore { program_id, ledgers: Vec::new(), employees: Vec::new() }
    }

    /// Creates the ledger of a company together with its custody identity.
    pub fn init_vesting(
        &mut self,
        company_name: Vec<u8>,
        asset_mint: &Identity,
        initializer: &Identity,
    ) -> (r: Result<Identity, ErrorCode>)
        requires
            old(self).wf(),
        ensures
            final(self).wf(),
            final(self).program_id == old(self).program_id,
            final(self).employees == old(self).employees,
            init_vesting_post(
                *old(self),
                *final(self),
                company_name@,
                asset_mint@,
                initializer@,
                r,
            ),
    {
        if company_name.len() > MAX_COMPANY_NAME_LEN {
            return Err(ErrorCode::CompanyNameTooLong);
        }
        let (laddr, lbump) = match derive_ledger_address(&self.program_id, &company_name) {
            Some(p) => p,
            None => {
                return Err(ErrorCode::DerivationFailure);
            },
        };
        let (taddr, tbump) = match derive_treasury_address(&self.program_id, &company_name) {
            Some(p) => p,
            None => {
                return Err(ErrorCode::DerivationFailure);
            },
        };
        match find_key(&self.ledgers, &laddr) {
            Some(_) => {
                return Err(ErrorCode::AlreadyExists);
            },
            None => {},
        }
        let out = laddr.dup();
        let account = VestingAccount {
            company_name,
            owner: initializer.dup(),
            mint: asset_mint.dup(),
            treasury_token_account: taddr,
            token_amount: 0,
            treasury_bump: tbump,
            bump: lbump,
        };
        proof {
            lemma_unique_push(self.ledgers@, (laddr, account));
        }
        self.ledgers.push((laddr, account));
        Ok(out)
    }

    /// Registers the schedule of a beneficiary under a ledger.
    pub fn add_employee(
        &mut self,
        ledger_ref: &Identity,
        beneficiary: &Identity,
        total_amount: u64,
        start_time: i64,
        cliff_time: i64,
        end_time: i64,
        caller: &Identity,
    ) -> (r: Result<Identity, ErrorCode>)
        requires
            old(self).wf(),
        ensures
            final(self).wf(),
            final(self).program_id == old(self).program_id,
            final(self).ledgers == old(self).ledgers,
            add_employee_post(
                *old(self),
                *final(self),
                ledger_ref@,
                beneficiary@,
                total_amount,
                start_time,
                cliff_time,
                end_time,
                caller@,
                r,
            ),
    {
        let li = match find_key(&self.ledgers, ledger_ref) {
            Some(i) => i,
            None => {
                return Err(ErrorCode::AccountNotFound);
            },
        };
        proof {
            lemma_key_index_unique(self.ledgers@, ledger_ref@, li as int);
        }
        if !id_eq(&self.ledgers[li].1.owner, caller) {
            return Err(ErrorCode::Unauthorized);
        }
        let (eaddr, ebump) = match derive_employee_address(&self.program_id, beneficiary, ledger_ref) {
            Some(p) => p,
            None => {
                return Err(ErrorCode::DerivationFailure);
            },
        };
        match find_key(&self.employees, &eaddr) {
            Some(_) => {
                return Err(ErrorCode::AlreadyExists);
            },
            None => {},
        }
        let out = eaddr.dup();
        let schedule = EmployeeAccount {
            beneficiary: beneficiary.dup(),
            vesting_account: ledger_ref.dup(),
            total_amount,
            total_withdrawn: 0,
            start_time,
            cliff_time,
            end_time,
            revoked: false,
            bump: ebump,
        };
        proof {
            lemma_unique_push(self.employees@, (eaddr, schedule));
        }
        self.employees.push((eaddr, schedule));
        Ok(out)
    }

    /// Claims the currently claimable amount of the caller's schedule under
    /// the company's ledger, recording the withdrawal; the returned amount is
    /// what the custody account owes the beneficiary in the same atomic unit.
    pub fn claim_tokens(
        &mut self,
        company_name: &Vec<u8>,
        beneficiary: &Identity,
        caller: &Identity,
        now: i64,
    ) -> (r: Result<u64, ErrorCode>)
        requires
            old(self).wf(),
        ensures
            final(self).wf(),
            final(self).program_id == old(self).program_id,
            final(self).ledgers == old(self).ledgers,
            claim_tokens_post(
                *old(self),
                *final(self),
                company_name@,
                beneficiary@,
                caller@,
                now,
                r,
            ),
    {
        let (laddr, _lbump) = match derive_ledger_address(&self.program_id, company_name) {
            Some(p) => p,
            None => {
                return Err(ErrorCode::DerivationFailure);
            },
        };
        match find_key(&self.ledgers, &laddr) {
            Some(_) => {},
            None => {
                return Err(ErrorCode::AccountNotFound);
            },
        }
        let (eaddr, _ebump) = match derive_employee_address(&self.program_id, beneficiary, &laddr) {
            Some(p) => p,
            None => {
                return Err(ErrorCode::DerivationFailure);
            },
        };
        let ei = match find_key(&self.employees, &eaddr) {
            Some(i) => i,
            None => {
                return Err(ErrorCode::AccountNotFound);
            },
        };
        proof {
            lemma_key_index_unique(self.employees@, eaddr@, ei as int);
        }
        let ghost e = self.employees@[ei as int].1;
        if !(id_eq(&self.employees[ei].1.beneficiary, caller) && id_eq(
            &self.employees[ei].1.vesting_account,
            &laddr,
        )) {
            return Err(ErrorCode::Unauthorized);
        }
        let amount = match evaluate_claim(&self.employees[ei].1, now) {
            Ok(a) => a,
            Err(code) => {
                return Err(code);
            },
        };
        proof {
            assert(claim_outcome_spec(e, now) == Result::<u64, ErrorCode>::Ok(amount));
            assert(e.end_time - e.start_time > 0);
            lemma_vested_bounds(e.total_amount, e.start_time, e.end_time, now);
            assert(e.total_withdrawn + amount <= e.total_amount);
        }
        let slot = pair_at_mut(&mut self.employees, ei);
        slot.1.total_withdrawn = slot.1.total_withdrawn + amount;
        proof {
            let pre_s = old(self).employees@;
            let post_s = self.employees@;
            assert(post_s == pre_s.update(ei as int, post_s[ei as int]));
            assert forall|k: int| 0 <= k < post_s.len() implies (#[trigger] post_s[k]).0
                == pre_s[k].0 by {
                if k != ei {
                    assert(post_s[k] == pre_s[k]);
                }
            }
            assert(unique_keys(post_s)) by {
                assert forall|i: int, j: int|
                    #![trigger post_s[i], post_s[j]]
                    0 <= i < j < post_s.len() implies post_s[i].0@ != post_s[j].0@ by {
                    assert(pre_s[i].0@ != pre_s[j].0@);
                }
            }
            assert forall|k: int| 0 <= k < post_s.len() implies (#[trigger] post_s[k]).1.wf() by {
                if k != ei {
                    assert(post_s[k] == pre_s[k]);
                }
            }
        }
        Ok(amount)
    }

    /// Permanently revokes the schedule of a beneficiary under a ledger.
    pub fn revoke_employee(
        &mut self,
        ledger_ref: &Identity,
        beneficiary: &Identity,
        caller: &Identity,
    ) -> (r: Result<(), ErrorCode>)
        requires
            old(self).wf(),
        ensures
            final(self).wf(),
            final(self).program_id == old(self).program_id,
            final(self).ledgers == old(self).ledgers,
            revoke_employee_post(
                *old(self),
                *final(self),
                ledger_ref@,
                beneficiary@,
                caller@,
                r,
            ),
    {
        let li = match find_key(&self.ledgers, ledger_ref) {
            Some(i) => i,
            None => {
                return Err(ErrorCode::AccountNotFound);
            },
        };
        proof {
            lemma_key_index_unique(self.ledgers@, ledger_ref@, li as int);
        }
        if !id_eq(&self.ledgers[li].1.owner, caller) {
            return Err(ErrorCode::Unauthorized);
        }
        let (eaddr, _ebump) = match derive_employee_address(&self.program_id, beneficiary, ledger_ref) {
            Some(p) => p,
            None => {
                return Err(ErrorCode::DerivationFailure);
            },
        };
        let ei = match find_key(&self.employees, &eaddr) {
            Some(i) => i,
            None => {
                return Err(ErrorCode::AccountNotFound);
            },
        };
        proof {
            lemma_key_index_unique(self.employees@, eaddr@, ei as int);
        }
        let slot = pair_at_mut(&mut self.employees, ei);
        slot.1.revoked = true;
        proof {
            let pre_s = old(self).employees@;
            let post_s = self.employees@;
            assert(post_s == pre_s.update(ei as int, post_s[ei as int]));
            assert forall|k: int| 0 <= k < post_s.len() implies (#[trigger] post_s[k]).0
                == pre_s[k].0 by {
                if k != ei {
                    assert(post_s[k] == pre_s[k]);
                }
            }
            assert(unique_keys(post_s)) by {
                assert forall|i: int, j: int|
                    #![trigger post_s[i], post_s[j]]
                    0 <= i < j < post_s.len() implies post_s[i].0@ != post_s[j].0@ by {
                    assert(pre_s[i].0@ != pre_s[j].0@);
                }
            }
            assert forall|k: int| 0 <= k < post_s.len() implies (#[trigger] post_s[k]).1.wf() by {
                if k != ei {
                    assert(post_s[k] == pre_s[k]);
                }
            }
        }
        Ok(())
    }

    /// The ledger under a derived identity, if any.
    pub fn get_ledger(&self, ledger_ref: &Identity) -> (r: Option<&VestingAccount>)
        requires
            self.wf(),
        ensures
            (r matches Some(a) ==> has_key(self.ledgers@, ledger_ref@) && *a == kv_get(
                self.ledgers@,
                ledger_ref@,
            )),
            (r is None ==> !has_key(self.ledgers@, ledger_ref@)),
    {
        match find_key(&self.ledgers, ledger_ref) {
            Some(i) => {
                proof {
                    lemma_key_index_unique(self.ledgers@, ledger_ref@, i as int);
                }
                Some(&self.ledgers[i].1)
            },
            None => None,
        }
    }

    /// The schedule of a beneficiary under a ledger, if any.
    pub fn get_employee(&self, ledger_ref: &Identity, beneficiary: &Identity) -> (r: Option<
        &EmployeeAccount,
    >)
        requires
            self.wf(),
        ensures
            (r matches Some(e) ==> lookup_employee_spec(*self, ledger_ref@, beneficiary@)
                == Option::Some(*e)),
            (r is None ==> lookup_employee_spec(*self, ledger_ref@, beneficiary@) is None),
    {
        let (eaddr, _ebump) = match derive_employee_address(&self.program_id, beneficiary, ledger_ref) {
            Some(p) => p,
            None => {
                return None;
            },
        };
        match find_key(&self.employees, &eaddr) {
            Some(i) => {
                proof {
                    lemma_key_index_unique(self.employees@, eaddr@, i as int);
                }
                Some(&self.employees[i].1)
            },
            None => None,
        }
    }
}

} // verus!

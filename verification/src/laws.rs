//! Proved laws of the escrow protocol, stated over the transition
//! functions that the engine's operations are specified by.

use vstd::prelude::*;

use crate::escrow::Agreement;
use crate::escrow::EscrowError;
use crate::escrow::spec_approve_and_pay;
use crate::escrow::spec_fund;
use crate::escrow::spec_init;
use crate::escrow::spec_submit_work;
use crate::ledger::bal;
use crate::ledger::transfer_ok;

verus! {

/// A full run settles the escrow: for any fresh agreement between distinct
/// parties over a coverable amount, `init` then `fund` then `submit_work`
/// then `approve_and_pay` all succeed, the amount has moved from the
/// client's account to the worker's, and no value is left in escrow
/// custody.
pub proof fn lemma_escrow_settles(
    ags: Map<u64, Agreement>,
    lg: Map<u64, i128>,
    id: u64,
    client: u64,
    worker: u64,
    amount: i128,
    escrow_account: u64,
)
    requires
        !ags.contains_key(id),
        0 <= amount,
        client != worker,
        client != escrow_account,
        worker != escrow_account,
        amount <= bal(lg, client),
        0 <= bal(lg, escrow_account),
        bal(lg, escrow_account) + amount <= i128::MAX,
        bal(lg, worker) + amount <= i128::MAX,
    ensures
        ({
            let (ags1, r1) = spec_init(ags, id, client, client, worker, amount);
            let (ags2, lg2, r2) = spec_fund(ags1, lg, id, client, escrow_account);
            let (ags3, r3) = spec_submit_work(ags2, id, worker);
            let (ags4, lg4, r4) = spec_approve_and_pay(ags3, lg2, id, client, escrow_account);
            &&& r1 is Ok
            &&& r2 is Ok
            &&& r3 is Ok
            &&& r4 is Ok
            &&& bal(lg4, client) == bal(lg, client) - amount
            &&& bal(lg4, worker) == bal(lg, worker) + amount
            &&& bal(lg4, escrow_account) == bal(lg, escrow_account)
            &&& ags4.contains_key(id) && ags4[id].funded && ags4[id].completed
        }),
{
}

/// Funding and submitting work commute: for every starting state and every
/// pair of callers, running `fund` then `submit_work` leaves the same
/// agreements, the same ledger and the same pair of results as running
/// `submit_work` then `fund`. Each must independently succeed before
/// payment can occur, and neither order is privileged.
pub proof fn lemma_fund_submit_commute(
    ags: Map<u64, Agreement>,
    lg: Map<u64, i128>,
    id: u64,
    fund_caller: u64,
    submit_caller: u64,
    escrow_account: u64,
)
    ensures
        ({
            let (fa1, fl1, fr1) = spec_fund(ags, lg, id, fund_caller, escrow_account);
            let (fa2, fr2) = spec_submit_work(fa1, id, submit_caller);
            let (sa1, sr1) = spec_submit_work(ags, id, submit_caller);
            let (sa2, sl2, sr2) = spec_fund(sa1, lg, id, fund_caller, escrow_account);
            &&& fa2 == sa2
            &&& fl1 == sl2
            &&& fr1 == sr2
            &&& fr2 == sr1
        }),
{
    let (fa1, fl1, fr1) = spec_fund(ags, lg, id, fund_caller, escrow_account);
    let (fa2, fr2) = spec_submit_work(fa1, id, submit_caller);
    let (sa1, sr1) = spec_submit_work(ags, id, submit_caller);
    let (sa2, sl2, sr2) = spec_fund(sa1, lg, id, fund_caller, escrow_account);
    assert(fa2 =~= sa2);
}

/// Either order of `fund` and `submit_work` hands `approve_and_pay` the
/// same state, so the payment outcome is identical as well.
pub proof fn lemma_order_independent_payment(
    ags: Map<u64, Agreement>,
    lg: Map<u64, i128>,
    id: u64,
    fund_caller: u64,
    submit_caller: u64,
    approve_caller: u64,
    escrow_account: u64,
)
    ensures
        ({
            let (fa1, fl1, fr1) = spec_fund(ags, lg, id, fund_caller, escrow_account);
            let (fa2, fr2) = spec_submit_work(fa1, id, submit_caller);
            let (sa1, sr1) = spec_submit_work(ags, id, submit_caller);
            let (sa2, sl2, sr2) = spec_fund(sa1, lg, id, fund_caller, escrow_account);
            spec_approve_and_pay(fa2, fl1, id, approve_caller, escrow_account)
                == spec_approve_and_pay(sa2, sl2, id, approve_caller, escrow_account)
        }),
{
    lemma_fund_submit_commute(ags, lg, id, fund_caller, submit_caller, escrow_account);
}

/// A rejected deposit is recoverable: when `fund` fails because the
/// transfer cannot complete, nothing has changed and the agreement is
/// still unfunded; and a later `fund` on any ledger state that can cover
/// the deposit succeeds and marks the agreement funded.
pub proof fn lemma_fund_retry(
    ags: Map<u64, Agreement>,
    lg: Map<u64, i128>,
    lg_fixed: Map<u64, i128>,
    id: u64,
    caller: u64,
    escrow_account: u64,
)
    requires
        ags.contains_key(id),
        caller == ags[id].client,
        !transfer_ok(lg, ags[id].client, escrow_account, ags[id].amount),
        transfer_ok(lg_fixed, ags[id].client, escrow_account, ags[id].amount),
    ensures
        ({
            let (ags1, lg1, r1) = spec_fund(ags, lg, id, caller, escrow_account);
            let (ags2, lg2, r2) = spec_fund(ags1, lg_fixed, id, caller, escrow_account);
            &&& r1 == Err::<(), EscrowError>(EscrowError::TransferError)
            &&& ags1 == ags
            &&& lg1 == lg
            &&& r2 is Ok
            &&& ags2.contains_key(id) && ags2[id].funded
        }),
{
}

/// What `init` owes every existing agreement: it never touches a record
/// already there, whether it succeeds or fails.
pub proof fn lemma_init_preserves_records(
    ags: Map<u64, Agreement>,
    id: u64,
    caller: u64,
    client: u64,
    worker: u64,
    amount: i128,
    k: u64,
)
    requires
        ags.contains_key(k),
    ensures
        ({
            let (ags1, r1) = spec_init(ags, id, caller, client, worker, amount);
            ags1.contains_key(k) && ags1[k] == ags[k]
        }),
{
}

/// What every mutating operation owes every agreement: the parties and the
/// amount are fixed at creation, records are never deleted, and `funded`
/// and `completed` only ever move from false to true. `approve_and_pay`
/// never changes a record at all.
pub proof fn lemma_records_stable(
    ags: Map<u64, Agreement>,
    lg: Map<u64, i128>,
    id: u64,
    caller: u64,
    escrow_account: u64,
    k: u64,
)
    requires
        ags.contains_key(k),
    ensures
        ({
            let (ags1, lg1, r1) = spec_fund(ags, lg, id, caller, escrow_account);
            &&& ags1.contains_key(k)
            &&& ags1[k].client == ags[k].client
            &&& ags1[k].worker == ags[k].worker
            &&& ags1[k].amount == ags[k].amount
            &&& ags[k].funded ==> ags1[k].funded
            &&& ags1[k].completed == ags[k].completed
        }),
        ({
            let (ags1, r1) = spec_submit_work(ags, id, caller);
            &&& ags1.contains_key(k)
            &&& ags1[k].client == ags[k].client
            &&& ags1[k].worker == ags[k].worker
            &&& ags1[k].amount == ags[k].amount
            &&& ags1[k].funded == ags[k].funded
            &&& ags[k].completed ==> ags1[k].completed
        }),
        spec_approve_and_pay(ags, lg, id, caller, escrow_account).0 == ags,
{
}

} // verus!

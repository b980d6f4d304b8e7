//! The escrow engine: one persistent agreement record per agreement
//! identifier, and four operations that drive it.
//!
//! A client and a worker are identified by account numbers. `init` records
//! a new agreement; `fund` moves the agreed amount from the client into the
//! engine's custodial account; `submit_work` records the worker's
//! attestation; `approve_and_pay` releases the deposit to the worker, and
//! only when the agreement is both funded and completed. Every operation
//! either fully succeeds or fails with a specific error and changes
//! nothing.

use vstd::prelude::*;

use crate::ledger::Ledger;
use crate::ledger::transfer_ok;
use crate::ledger::transfer_upd;
use crate::store::Store;

verus! {

/// The persistent escrow record for one agreement.
#[derive(Clone, Copy, PartialEq, Eq, Debug)]
pub struct Agreement {
    /// The funding party. Fixed at creation.
    pub client: u64,
    /// The performing party. Fixed at creation.
    pub worker: u64,
    /// The quantity of value escrowed and eventually paid. Fixed at
    /// creation, and never negative.
    pub amount: i128,
    /// Whether the client's deposit has been moved into escrow custody.
    pub funded: bool,
    /// Whether the worker has attested that the work is done.
    pub completed: bool,
}

/// Why an escrow operation was aborted. Every failure leaves the engine
/// and the ledger unchanged.
#[derive(Clone, Copy, PartialEq, Eq, Debug)]
pub enum EscrowError {
    /// The operation needs an agreement that does not exist yet.
    NotInitialized,
    /// The caller is not the party the operation is reserved to.
    AuthorizationError,
    /// The value-transfer service could not complete the requested
    /// transfer.
    TransferError,
    /// An agreement with this identifier already exists.
    StorageConflict,
}

/// Whether the deposit may be released: the agreement must be both funded
/// and completed.
pub fn payment_due(funded: bool, completed: bool) -> (due: bool)
    ensures
        due == (funded && completed),
{
    funded && completed
}

/// The effect of `init`: the agreements map after the call, and its result.
pub open spec fn spec_init(
    ags: Map<u64, Agreement>,
    id: u64,
    caller: u64,
    client: u64,
    worker: u64,
    amount: i128,
) -> (Map<u64, Agreement>, Result<(), EscrowError>) {
    if caller != client {
        (ags, Err(EscrowError::AuthorizationError))
    } else if ags.contains_key(id) {
        (ags, Err(EscrowError::StorageConflict))
    } else {
        (
            ags.insert(
                id,
                Agreement { client, worker, amount, funded: false, completed: false },
            ),
            Ok(()),
        )
    }
}

/// The effect of `fund`: the agreements map and the ledger after the call,
/// and its result. The deposit moves from the client to the custodial
/// account `escrow_account`, and `funded` is set only once the transfer
/// has completed.
pub open spec fn spec_fund(
    ags: Map<u64, Agreement>,
    lg: Map<u64, i128>,
    id: u64,
    caller: u64,
    escrow_account: u64,
) -> (Map<u64, Agreement>, Map<u64, i128>, Result<(), EscrowError>) {
    if !ags.contains_key(id) {
        (ags, lg, Err(EscrowError::NotInitialized))
    } else if caller != ags[id].client {
        (ags, lg, Err(EscrowError::AuthorizationError))
    } else if !transfer_ok(lg, ags[id].client, escrow_account, ags[id].amount) {
        (ags, lg, Err(EscrowError::TransferError))
    } else {
        (
            ags.insert(id, Agreement { funded: true, ..ags[id] }),
            transfer_upd(lg, ags[id].client, escrow_account, ags[id].amount),
            Ok(()),
        )
    }
}

/// The effect of `submit_work`: the agreements map after the call, and its
/// result. No value moves; the worker's attestation is recorded alone.
pub open spec fn spec_submit_work(ags: Map<u64, Agreement>, id: u64, caller: u64) -> (
    Map<u64, Agreement>,
    Result<(), EscrowError>,
) {
    if !ags.contains_key(id) {
        (ags, Err(EscrowError::NotInitialized))
    } else if caller != ags[id].worker {
        (ags, Err(EscrowError::AuthorizationError))
    } else {
        (ags.insert(id, Agreement { completed: true, ..ags[id] }), Ok(()))
    }
}

/// The effect of `approve_and_pay`: the agreements map and the ledger after
/// the call, and its result. The deposit moves from the custodial account
/// to the worker exactly when the agreement is funded and completed; when
/// the guard fails the call is a silent no-op. The record itself never
/// changes.
pub open spec fn spec_approve_and_pay(
    ags: Map<u64, Agreement>,
    lg: Map<u64, i128>,
    id: u64,
    caller: u64,
    escrow_account: u64,
) -> (Map<u64, Agreement>, Map<u64, i128>, Result<(), EscrowError>) {
    if !ags.contains_key(id) {
        (ags, lg, Err(EscrowError::NotInitialized))
    } else if caller != ags[id].client {
        (ags, lg, Err(EscrowError::AuthorizationError))
    } else if !(ags[id].funded && ags[id].completed) {
        (ags, lg, Ok(()))
    } else if !transfer_ok(lg, escrow_account, ags[id].worker, ags[id].amount) {
        (ags, lg, Err(EscrowError::TransferError))
    } else {
        (ags, transfer_upd(lg, escrow_account, ags[id].worker, ags[id].amount), Ok(()))
    }
}

/// The escrow engine: its custodial account and the durable agreement
/// records, viewed as the map from each agreement identifier to its
/// record.
pub struct WorkContract {
    escrow_account: u64,
    agreements: Store<Agreement>,
}

impl View for WorkContract {
    type V = Map<u64, Agreement>;

    closed spec fn view(&self) -> Map<u64, Agreement> {
        self.agreements@
    }
}

impl WorkContract {
    /// The account that holds deposits while they are in escrow custody.
    pub closed spec fn spec_escrow_account(self) -> u64 {
        self.escrow_account
    }

    /// An engine with no agreements, holding custody in `escrow_account`.
    pub fn new(escrow_account: u64) -> (c: WorkContract)
        ensures
            c.spec_escrow_account() == escrow_account,
            c@ == Map::<u64, Agreement>::empty(),
    {
        WorkContract { escrow_account, agreements: Store::new() }
    }

    /// The account that holds deposits while they are in escrow custody.
    pub fn escrow_account(&self) -> (a: u64)
        ensures
            a == self.spec_escrow_account(),
    {
        self.escrow_account
    }

    /// The agreement recorded under `id`, if any.
    pub fn get_agreement(&self, id: u64) -> (r: Option<Agreement>)
        ensures
            match r {
                Some(a) => self@.contains_key(id) && a == self@[id],
                None => !self@.contains_key(id),
            },
    {
        self.agreements.get(id)
    }

    /// Records a new agreement between `client` and `worker` over `amount`,
    /// not yet funded and not yet completed. Only `client` may create it,
    /// and only once per identifier.
    pub fn init(
        &mut self,
        id: u64,
        caller: u64,
        client: u64,
        worker: u64,
        amount: i128,
    ) -> (r: Result<(), EscrowError>)
        requires
            0 <= amount,
        ensures
            final(self).spec_escrow_account() == old(self).spec_escrow_account(),
            final(self)@ == spec_init(old(self)@, id, caller, client, worker, amount).0,
            r == spec_init(old(self)@, id, caller, client, worker, amount).1,
            r is Ok <==> (caller == client && !old(self)@.contains_key(id)),
            r is Ok ==> final(self)@[id] == (Agreement {
                client,
                worker,
                amount,
                funded: false,
                completed: false,
            }),
            r is Err ==> final(self)@ == old(self)@,
    {
        if caller != client {
            return Err(EscrowError::AuthorizationError);
        }
        if self.agreements.get(id).is_some() {
            return Err(EscrowError::StorageConflict);
        }
        self.agreements.put(
            id,
            Agreement { client, worker, amount, funded: false, completed: false },
        );
        Ok(())
    }

    /// Moves the agreed amount from the client's account into escrow
    /// custody and marks the agreement funded. Only the agreement's client
    /// may fund it, and `funded` is persisted only after the transfer has
    /// completed: a failed transfer leaves the agreement unfunded.
    pub fn fund(&mut self, id: u64, caller: u64, ledger: &mut Ledger) -> (r: Result<
        (),
        EscrowError,
    >)
        ensures
            final(self).spec_escrow_account() == old(self).spec_escrow_account(),
            final(self)@ == spec_fund(
                old(self)@,
                old(ledger)@,
                id,
                caller,
                old(self).spec_escrow_account(),
            ).0,
            final(ledger)@ == spec_fund(
                old(self)@,
                old(ledger)@,
                id,
                caller,
                old(self).spec_escrow_account(),
            ).1,
            r == spec_fund(old(self)@, old(ledger)@, id, caller, old(self).spec_escrow_account()).2,
            r is Ok <==> (old(self)@.contains_key(id) && caller == old(self)@[id].client
                && transfer_ok(
                old(ledger)@,
                old(self)@[id].client,
                old(self).spec_escrow_account(),
                old(self)@[id].amount,
            )),
            r is Ok ==> final(self)@[id] == (Agreement { funded: true, ..old(self)@[id] }),
            !old(self)@.contains_key(id) ==> r == Err::<(), EscrowError>(
                EscrowError::NotInitialized,
            ),
            old(self)@.contains_key(id) && caller != old(self)@[id].client ==> r == Err::<
                (),
                EscrowError,
            >(EscrowError::AuthorizationError),
            r is Err ==> final(self)@ == old(self)@ && final(ledger)@ == old(ledger)@,
    {
        let a = match self.agreements.get(id) {
            Some(a) => a,
            None => { return Err(EscrowError::NotInitialized) },
        };
        if caller != a.client {
            return Err(EscrowError::AuthorizationError);
        }
        match ledger.transfer(a.client, self.escrow_account, a.amount) {
            Ok(()) => {},
            Err(_) => { return Err(EscrowError::TransferError) },
        }
        self.agreements.put(id, Agreement { funded: true, ..a });
        Ok(())
    }

    /// Records the worker's attestation that the work is done. Only the
    /// agreement's worker may attest, and no value moves here.
    pub fn submit_work(&mut self, id: u64, caller: u64) -> (r: Result<(), EscrowError>)
        ensures
            final(self).spec_escrow_account() == old(self).spec_escrow_account(),
            final(self)@ == spec_submit_work(old(self)@, id, caller).0,
            r == spec_submit_work(old(self)@, id, caller).1,
            r is Ok <==> (old(self)@.contains_key(id) && caller == old(self)@[id].worker),
            r is Ok ==> final(self)@[id] == (Agreement { completed: true, ..old(self)@[id] }),
            !old(self)@.contains_key(id) ==> r == Err::<(), EscrowError>(
                EscrowError::NotInitialized,
            ),
            old(self)@.contains_key(id) && caller != old(self)@[id].worker ==> r == Err::<
                (),
                EscrowError,
            >(EscrowError::AuthorizationError),
            r is Err ==> final(self)@ == old(self)@,
    {
        let a = match self.agreements.get(id) {
            Some(a) => a,
            None => { return Err(EscrowError::NotInitialized) },
        };
        if caller != a.worker {
            return Err(EscrowError::AuthorizationError);
        }
        self.agreements.put(id, Agreement { completed: true, ..a });
        Ok(())
    }

    /// Releases the deposit: moves the agreed amount from escrow custody to
    /// the worker, and only when the agreement is both funded and
    /// completed. Only the agreement's client may release; when the guard
    /// fails the call succeeds without moving value. The record itself is
    /// never changed.
    pub fn approve_and_pay(&mut self, id: u64, caller: u64, ledger: &mut Ledger) -> (r: Result<
        (),
        EscrowError,
    >)
        ensures
            final(self).spec_escrow_account() == old(self).spec_escrow_account(),
            final(self)@ == old(self)@,
            final(ledger)@ == spec_approve_and_pay(
                old(self)@,
                old(ledger)@,
                id,
                caller,
                old(self).spec_escrow_account(),
            ).1,
            r == spec_approve_and_pay(
                old(self)@,
                old(ledger)@,
                id,
                caller,
                old(self).spec_escrow_account(),
            ).2,
            r is Ok <==> (old(self)@.contains_key(id) && caller == old(self)@[id].client && ((
            old(self)@[id].funded && old(self)@[id].completed) ==> transfer_ok(
                old(ledger)@,
                old(self).spec_escrow_account(),
                old(self)@[id].worker,
                old(self)@[id].amount,
            ))),
            old(self)@.contains_key(id) && caller == old(self)@[id].client && !(old(
                self,
            )@[id].funded && old(self)@[id].completed) ==> r is Ok && final(ledger)@ == old(
                ledger,
            )@,
            r is Err ==> final(ledger)@ == old(ledger)@,
    {
        let a = match self.agreements.get(id) {
            Some(a) => a,
            None => { return Err(EscrowError::NotInitialized) },
        };
        if caller != a.client {
            return Err(EscrowError::AuthorizationError);
        }
        if payment_due(a.funded, a.completed) {
            match ledger.transfer(self.escrow_account, a.worker, a.amount) {
                Ok(()) => {},
                Err(_) => { return Err(EscrowError::TransferError) },
            }
        }
        Ok(())
    }
}

} // verus!

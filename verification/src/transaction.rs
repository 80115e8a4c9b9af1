//! Transactions.
//!
//! A transaction exclusively holds its session for its duration: only one
//! may be open on a session at a time, and the native layer rejects a second
//! begin with a fixed error. Committing or rolling back consumes the
//! transaction value, so it cannot be ended twice through this interface;
//! abandoning one without an explicit end behaves as a rollback.
//!
//! Whether the changes of a committed transaction are durable and those of a
//! rolled-back one are gone is the server's guarantee; this layer decides,
//! and proves, that exactly one native end call with the caller's mode is
//! issued per transaction.

use vstd::prelude::*;
use crate::codes::{MIMER_SUCCESS, MIMER_SEQUENCE_ERROR, MIMER_TRANSACTION_OPEN,
    ERR_CONNECTION_DROPPED};
use crate::common::{TransactionMode, EndTransactionMode};
use crate::driver::{Driver, DriverModel, SessionModel, session_slot_mut};

verus! {

/// An open transaction on one session. Ending it — by commit, rollback or
/// abandonment — consumes the value.
#[derive(Debug)]
pub struct Transaction {
    /// The identity of the session the transaction runs on.
    pub session: usize,
}

/// A driver whose session slot carries a new transaction flag, all else
/// unchanged.
pub open spec fn model_with_transaction(m: DriverModel, sid: int, open: bool) -> DriverModel {
    DriverModel {
        sessions: m.sessions.update(
            sid,
            SessionModel {
                live: m.sessions[sid].live,
                registry: m.sessions[sid].registry,
                transaction_open: open,
            },
        ),
        statements: m.statements,
        cursors: m.cursors,
    }
}

/// What a transaction begin returns: the liveness gate, the single-open
/// rule — the native layer rejects a second begin with a fixed error — then
/// the native begin's status.
pub open spec fn model_begin_transaction_result(m: DriverModel, sid: int, rc: i32) -> Result<
    (),
    i32,
> {
    if !m.sessions[sid].live {
        Err(ERR_CONNECTION_DROPPED)
    } else if m.sessions[sid].transaction_open {
        Err(MIMER_TRANSACTION_OPEN)
    } else if rc < 0 {
        Err(rc)
    } else {
        Ok(())
    }
}

/// What a transaction end returns: the liveness gate, then the native
/// layer's rejection of ending when no transaction is open — an illegal
/// sequence of calls — then the native end's status.
pub open spec fn model_end_transaction_result(m: DriverModel, sid: int, rc: i32) -> Result<
    i32,
    i32,
> {
    if !m.sessions[sid].live {
        Err(ERR_CONNECTION_DROPPED)
    } else if !m.sessions[sid].transaction_open {
        Err(MIMER_SEQUENCE_ERROR)
    } else if rc < 0 {
        Err(rc)
    } else {
        Ok(MIMER_SUCCESS)
    }
}

/// The complete outcome of ending a transaction: the result returned and
/// the driver state left behind. Commit, rollback and abandonment are all
/// specified by this one function — they differ only in the mode the native
/// end call carries — so abandoning a transaction returns and moves the
/// state exactly as rolling it back would, on every driver state and every
/// native status.
pub open spec fn model_end_outcome(m: DriverModel, sid: int, rc: i32) -> (
    Result<i32, i32>,
    DriverModel,
) {
    let r = model_end_transaction_result(m, sid, rc);
    (
        r,
        if r is Ok {
            model_with_transaction(m, sid, false)
        } else {
            m
        },
    )
}

impl Driver {
    /// Initiates a transaction on a session, exclusively: a second begin
    /// while one is open fails with the native layer's fixed error. The
    /// native begin never returns a positive status; the embedding must
    /// abort on one rather than call in.
    pub fn begin_transaction(&mut self, sid: usize, trans_option: TransactionMode, rc: i32) -> (r:
        Result<Transaction, i32>)
        requires
            old(self)@.wf(),
            sid < old(self)@.sessions.len(),
            rc <= MIMER_SUCCESS,
        ensures
            final(self)@.wf(),
            match r {
                Ok(t) => model_begin_transaction_result(old(self)@, sid as int, rc) == Ok::<
                    (),
                    i32,
                >(()) && t.session == sid,
                Err(e) => model_begin_transaction_result(old(self)@, sid as int, rc) == Err::<
                    (),
                    i32,
                >(e),
            },
            final(self)@ == if r is Ok {
                model_with_transaction(old(self)@, sid as int, true)
            } else {
                old(self)@
            },
    {
        if !self.sessions[sid].live {
            return Err(ERR_CONNECTION_DROPPED);
        }
        if self.sessions[sid].transaction_open {
            return Err(MIMER_TRANSACTION_OPEN);
        }
        if rc < MIMER_SUCCESS {
            return Err(rc);
        }
        let ghost m0 = self@;
        let slot = session_slot_mut(&mut self.sessions, sid);
        slot.transaction_open = true;
        proof {
            let m1 = model_with_transaction(m0, sid as int, true);
            assert(self@.sessions =~= m1.sessions);
            assert(self@ =~~= m1);
            lemma_transaction_flag_wf(m0, sid as int, true);
        }
        Ok(Transaction { session: sid })
    }

    /// Ends a transaction with the given mode, consuming it. Ending when no
    /// transaction is open — which this interface only reaches through a
    /// forged token — is the native layer's illegal-call-sequence error.
    /// The native end never returns a positive status; the embedding must
    /// abort on one rather than call in.
    pub fn end_transaction(&mut self, t: Transaction, trans_option: EndTransactionMode, rc: i32)
        -> (r: Result<i32, i32>)
        requires
            old(self)@.wf(),
            t.session < old(self)@.sessions.len(),
            rc <= MIMER_SUCCESS,
        ensures
            final(self)@.wf(),
            (r, final(self)@) == model_end_outcome(old(self)@, t.session as int, rc),
    {
        let sid = t.session;
        if !self.sessions[sid].live {
            return Err(ERR_CONNECTION_DROPPED);
        }
        if !self.sessions[sid].transaction_open {
            return Err(MIMER_SEQUENCE_ERROR);
        }
        if rc < MIMER_SUCCESS {
            return Err(rc);
        }
        let ghost m0 = self@;
        let slot = session_slot_mut(&mut self.sessions, sid);
        slot.transaction_open = false;
        proof {
            let m1 = model_with_transaction(m0, sid as int, false);
            assert(self@.sessions =~= m1.sessions);
            assert(self@ =~~= m1);
            lemma_transaction_flag_wf(m0, sid as int, false);
        }
        Ok(MIMER_SUCCESS)
    }
}

impl Transaction {
    /// Commits the transaction's changes, consuming it: one native end call
    /// with the commit mode.
    pub fn commit(self, driver: &mut Driver, rc: i32) -> (r: Result<i32, i32>)
        requires
            old(driver)@.wf(),
            self.session < old(driver)@.sessions.len(),
            rc <= MIMER_SUCCESS,
        ensures
            final(driver)@.wf(),
            (r, final(driver)@) == model_end_outcome(old(driver)@, self.session as int, rc),
    {
        driver.end_transaction(self, EndTransactionMode::Commit, rc)
    }

    /// Rolls the transaction's changes back, consuming it: one native end
    /// call with the rollback mode.
    pub fn rollback(self, driver: &mut Driver, rc: i32) -> (r: Result<i32, i32>)
        requires
            old(driver)@.wf(),
            self.session < old(driver)@.sessions.len(),
            rc <= MIMER_SUCCESS,
        ensures
            final(driver)@.wf(),
            (r, final(driver)@) == model_end_outcome(old(driver)@, self.session as int, rc),
    {
        driver.end_transaction(self, EndTransactionMode::Rollback, rc)
    }

    /// Abandons the transaction without an explicit end: it behaves exactly
    /// as a rollback, so changes never outlive a transaction that was not
    /// committed.
    pub fn abandon(self, driver: &mut Driver, rc: i32) -> (r: Result<i32, i32>)
        requires
            old(driver)@.wf(),
            self.session < old(driver)@.sessions.len(),
            rc <= MIMER_SUCCESS,
        ensures
            final(driver)@.wf(),
            (r, final(driver)@) == model_end_outcome(old(driver)@, self.session as int, rc),
    {
        self.rollback(driver, rc)
    }
}

/// Changing only a session's transaction flag preserves the registry
/// invariant.
proof fn lemma_transaction_flag_wf(m: DriverModel, sid: int, open: bool)
    requires
        m.wf(),
        0 <= sid < m.sessions.len(),
    ensures
        model_with_transaction(m, sid, open).wf(),
{
    let m1 = model_with_transaction(m, sid, open);
    assert forall|x: int| 0 <= x < m1.statements.len() implies m1.stmt_in_range(x) by {
        assert(m.stmt_in_range(x));
    }
    assert forall|i: int|
        0 <= i < m1.sessions.len() && (#[trigger] m1.sessions[i]).live implies m1.registry_wf(
        i,
    ) by {
        assert(m.sessions[i].live);
        assert(m.registry_wf(i));
        assert(m1.sessions[i].registry == m.sessions[i].registry);
        assert forall|k: int|
            0 <= k < m1.sessions[i].registry.len() implies {
            let x = #[trigger] m1.sessions[i].registry[k] as int;
            &&& x < m1.statements.len()
            &&& m1.statements[x].session == i
            &&& m1.statements[x].live
            &&& !m1.statements[x].ended
        } by {
            assert(m.sessions[i].registry[k] == m1.sessions[i].registry[k]);
        }
        assert forall|x: int|
            0 <= x < m1.statements.len() && (#[trigger] m1.statements[x]).session == i
                && m1.statements[x].live implies m1.sessions[i].registry.contains(x as usize) by {
            assert(m.statements[x].session == i && m.statements[x].live);
        }
    }
    assert forall|c: int| 0 <= c < m1.cursors.len() implies m1.cursor_ok(c) by {
        assert(m.cursor_ok(c));
        assert(m1.cursors[c] == m.cursors[c]);
    }
}

// ---------------------------------------------------------------------------
// Laws.
// ---------------------------------------------------------------------------

/// After any successful end — commit, rollback or abandonment — the
/// session is free again: a new begin with a healthy native status is
/// accepted.
pub proof fn lemma_end_frees_the_session(m: DriverModel, sid: int, rc1: i32, rc2: i32)
    requires
        0 <= sid < m.sessions.len(),
        model_end_transaction_result(m, sid, rc1) is Ok,
        rc2 >= 0,
    ensures
        model_begin_transaction_result(model_with_transaction(m, sid, false), sid, rc2) is Ok,
{
}

/// A transaction ends exactly once: after a successful end on a session,
/// ending again — were a second token ever forged — fails with the
/// illegal-call-sequence error and changes nothing, until a new transaction
/// is begun.
pub proof fn lemma_end_transaction_once(m: DriverModel, sid: int, rc1: i32, rc2: i32)
    requires
        0 <= sid < m.sessions.len(),
        model_end_transaction_result(m, sid, rc1) is Ok,
    ensures
        model_end_transaction_result(
            model_with_transaction(m, sid, false),
            sid,
            rc2,
        ) == Err::<i32, i32>(MIMER_SEQUENCE_ERROR),
{
}

} // verus!

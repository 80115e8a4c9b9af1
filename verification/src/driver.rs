//! The handle-lifetime and resource-ownership core.
//!
//! The native resources form a strict ownership hierarchy: a session owns
//! statement handles, a statement owns its cursor and fetch buffer. The host
//! language, though, lets the application drop any level independently and at
//! any time, so parent links are non-owning back-references and liveness is
//! checked, never assumed, on every operation.
//!
//! This module realizes that discipline with a lookup table: a [`Driver`]
//! value owns one slot per session, statement and cursor ever created, and
//! the application addresses them by index. A slot outlives the object it
//! describes, so an orphaned child can always detect that its parent is gone
//! and fail with the distinguished "parent dropped" error instead of touching
//! a freed native handle.
//!
//! Every native call is a blocking foreign call made by the embedding; its
//! status code enters here as an argument, and this module decides — with a
//! proof — what the outcome means and how the bookkeeping moves. Calls that
//! the native layer documents as never returning a positive status carry a
//! `requires rc <= 0`: a positive status there is a breach of the native
//! contract, and the embedding must treat it as fatal rather than call in.
//!
//! Native calls against one handle must be serialized: one logical owner at
//! a time, and the connect and disconnect calls serialized process-wide
//! besides. Here the slot table is a single owned value, so the host
//! language's unique ownership provides that serialization; the narrow
//! connect/disconnect critical section belongs to the embedding that makes
//! those two native calls.
//!
//! The registry invariant ([`DriverModel::wf`]) states that a live session's
//! registry holds exactly its live statements, each at most once; the laws at
//! the end of the module derive from it that operations on orphaned
//! statements fail with the "connection dropped" error and that a native
//! statement handle is ended exactly once.

use vstd::prelude::*;
use vstd::string::StrSliceExecFns;
use vstd::seq_lib::*;
use crate::codes::{MIMER_SUCCESS, ERR_CONNECTION_DROPPED, ERR_NULL_SESSION, ERR_INTERNAL};
use crate::common::{CursorMode, ScrollOption};
use crate::error::MimerError;

verus! {

// ---------------------------------------------------------------------------
// The model: what a driver's bookkeeping states, as mathematical values.
// ---------------------------------------------------------------------------

/// The model of one session slot.
pub struct SessionModel {
    /// The session has not been closed: its native handle is valid.
    pub live: bool,
    /// The identities of the live statements prepared on this session.
    pub registry: Seq<usize>,
    /// A transaction is open on this session.
    pub transaction_open: bool,
}

/// The model of one statement slot.
pub struct StatementModel {
    /// The identity of the parent session.
    pub session: usize,
    /// The statement object is still held by the application.
    pub live: bool,
    /// The native statement handle has been ended.
    pub ended: bool,
    /// The native layer returned a null statement handle.
    pub null_handle: bool,
    /// The cursor mode fixed when the statement was prepared.
    pub cursor_mode: CursorMode,
    /// The parameter count captured at prepare time.
    pub num_params: usize,
    /// Parameter rows already committed to the native batch queue.
    pub batched: usize,
    /// One bound parameter row has not yet been committed to the queue.
    pub pending: bool,
}

/// The model of one cursor slot.
pub struct CursorModel {
    /// The identity of the parent statement.
    pub statement: usize,
    /// The cursor has not been closed.
    pub open: bool,
    /// The cursor mode, copied from the statement at open time.
    pub mode: CursorMode,
    /// The scroll directive the next scroll applies.
    pub scroll_option: ScrollOption,
    /// The number of rows of the open result set.
    pub rows: usize,
    /// The position: 0 before the first row, 1 up to `rows` on a row,
    /// `rows + 1` after the last row.
    pub pos: usize,
    /// A row is available at the current position.
    pub has_row: bool,
}

/// The model of a whole driver.
pub struct DriverModel {
    pub sessions: Seq<SessionModel>,
    pub statements: Seq<StatementModel>,
    pub cursors: Seq<CursorModel>,
}

// ---------------------------------------------------------------------------
// The exec state.
// ---------------------------------------------------------------------------

/// One session slot.
pub struct SessionSlot {
    pub live: bool,
    pub registry: Vec<usize>,
    pub transaction_open: bool,
}

/// One statement slot.
pub struct StatementSlot {
    pub session: usize,
    pub live: bool,
    pub ended: bool,
    pub null_handle: bool,
    pub cursor_mode: CursorMode,
    pub num_params: usize,
    pub batched: usize,
    pub pending: bool,
}

/// One cursor slot.
pub struct CursorSlot {
    pub statement: usize,
    pub open: bool,
    pub mode: CursorMode,
    pub scroll_option: ScrollOption,
    pub rows: usize,
    pub pos: usize,
    pub has_row: bool,
}

/// The driver: the process-wide table of every session, statement and cursor
/// slot, which all operations address by index.
pub struct Driver {
    pub sessions: Vec<SessionSlot>,
    pub statements: Vec<StatementSlot>,
    pub cursors: Vec<CursorSlot>,
}

impl View for SessionSlot {
    type V = SessionModel;

    open spec fn view(&self) -> SessionModel {
        SessionModel {
            live: self.live,
            registry: self.registry@,
            transaction_open: self.transaction_open,
        }
    }
}

impl View for StatementSlot {
    type V = StatementModel;

    open spec fn view(&self) -> StatementModel {
        StatementModel {
            session: self.session,
            live: self.live,
            ended: self.ended,
            null_handle: self.null_handle,
            cursor_mode: self.cursor_mode,
            num_params: self.num_params,
            batched: self.batched,
            pending: self.pending,
        }
    }
}

impl View for CursorSlot {
    type V = CursorModel;

    open spec fn view(&self) -> CursorModel {
        CursorModel {
            statement: self.statement,
            open: self.open,
            mode: self.mode,
            scroll_option: self.scroll_option,
            rows: self.rows,
            pos: self.pos,
            has_row: self.has_row,
        }
    }
}

impl View for Driver {
    type V = DriverModel;

    open spec fn view(&self) -> DriverModel {
        DriverModel {
            sessions: self.sessions@.map_values(|s: SessionSlot| s@),
            statements: self.statements@.map_values(|s: StatementSlot| s@),
            cursors: self.cursors@.map_values(|s: CursorSlot| s@),
        }
    }
}

// ---------------------------------------------------------------------------
// Well-formedness: the registry invariant.
// ---------------------------------------------------------------------------

impl DriverModel {
    /// A statement identity is in range and points at an existing session.
    pub open spec fn stmt_in_range(self, j: int) -> bool {
        0 <= j < self.statements.len() && self.statements[j].session < self.sessions.len()
    }

    /// A cursor's slot is consistent: it points at an existing statement and
    /// its position lies within the result set's bounds.
    pub open spec fn cursor_ok(self, c: int) -> bool {
        &&& self.cursors[c].statement < self.statements.len()
        &&& self.cursors[c].rows < usize::MAX
        &&& self.cursors[c].rows + 1 <= i32::MAX
        &&& self.cursors[c].pos <= self.cursors[c].rows + 1
    }

    /// Every entry of a live session's registry names a live, not-yet-ended
    /// statement of that session.
    pub open spec fn registry_sound(self, i: int) -> bool {
        forall|k: int|
            0 <= k < self.sessions[i].registry.len() ==> {
                let j = #[trigger] self.sessions[i].registry[k] as int;
                &&& j < self.statements.len()
                &&& self.statements[j].session == i
                &&& self.statements[j].live
                &&& !self.statements[j].ended
            }
    }

    /// Every live statement of a live session is registered there.
    pub open spec fn registry_complete(self, i: int) -> bool {
        forall|j: int|
            0 <= j < self.statements.len() && (#[trigger] self.statements[j]).session == i
                && self.statements[j].live ==> self.sessions[i].registry.contains(j as usize)
    }

    /// No statement is registered twice.
    pub open spec fn registry_distinct(self, i: int) -> bool {
        self.sessions[i].registry.no_duplicates()
    }

    /// The registry invariant of one live session.
    pub open spec fn registry_wf(self, i: int) -> bool {
        &&& self.registry_sound(i)
        &&& self.registry_complete(i)
        &&& self.registry_distinct(i)
    }

    /// The central invariant: statements point at existing sessions, cursors
    /// at existing statements, and each live session's registry holds exactly
    /// its live statements, each at most once.
    pub open spec fn wf(self) -> bool {
        &&& self.statements.len() <= usize::MAX
        &&& forall|j: int| 0 <= j < self.statements.len() ==> self.stmt_in_range(j)
        &&& forall|i: int|
            0 <= i < self.sessions.len() && (#[trigger] self.sessions[i]).live
                ==> self.registry_wf(i)
        &&& forall|c: int| 0 <= c < self.cursors.len() ==> self.cursor_ok(c)
    }

    /// The parent session of a statement.
    pub open spec fn session_of(self, j: int) -> int {
        self.statements[j].session as int
    }

    /// The statement's parent session is still live.
    pub open spec fn parent_session_live(self, j: int) -> bool {
        self.sessions[self.session_of(j)].live
    }

    /// The number of parameter rows an execute would now submit: the rows in
    /// the native batch queue, plus the bound row not yet committed to it.
    pub open spec fn submitted(self, j: int) -> int {
        self.statements[j].batched + if self.statements[j].pending {
            1int
        } else {
            0int
        }
    }
}

// ---------------------------------------------------------------------------
// Model transitions for the operations the laws compose.
// ---------------------------------------------------------------------------

/// A statement slot after its native handle was ended, if it was registered.
pub open spec fn model_end_if(st: StatementModel, registered: bool) -> StatementModel {
    StatementModel {
        session: st.session,
        live: st.live,
        ended: st.ended || registered,
        null_handle: st.null_handle,
        cursor_mode: st.cursor_mode,
        num_params: st.num_params,
        batched: st.batched,
        pending: st.pending,
    }
}

/// A session slot with liveness withdrawn.
pub open spec fn model_session_closed(s: SessionModel) -> SessionModel {
    SessionModel { live: false, registry: s.registry, transaction_open: s.transaction_open }
}

/// What closing a session does: every still-registered statement's native
/// handle is force-ended, then the session's own handle is closed.
pub open spec fn model_close_session(m: DriverModel, sid: int) -> DriverModel {
    DriverModel {
        sessions: m.sessions.update(sid, model_session_closed(m.sessions[sid])),
        statements: Seq::new(
            m.statements.len(),
            |j: int| model_end_if(m.statements[j], m.sessions[sid].registry.contains(j as usize)),
        ),
        cursors: m.cursors,
    }
}

/// A statement slot after the statement object was dropped, with the handle
/// ended where the parent session was still there to deregister from.
pub open spec fn model_statement_dropped(st: StatementModel, end_now: bool) -> StatementModel {
    StatementModel {
        session: st.session,
        live: false,
        ended: st.ended || end_now,
        null_handle: st.null_handle,
        cursor_mode: st.cursor_mode,
        num_params: st.num_params,
        batched: st.batched,
        pending: st.pending,
    }
}

/// The predicate keeping every statement identity but one.
pub open spec fn keep_other(j: usize) -> spec_fn(usize) -> bool {
    |x: usize| x != j
}

/// A session's registry with one statement identity withdrawn.
pub open spec fn model_deregister(s: SessionModel, j: usize) -> SessionModel {
    SessionModel {
        live: s.live,
        registry: s.registry.filter(keep_other(j)),
        transaction_open: s.transaction_open,
    }
}

/// What dropping a statement object does. If the parent session is still
/// alive, the statement deregisters itself and ends its native handle; if the
/// session is already gone, teardown is a no-op at the native layer, because
/// the handle died with the session.
pub open spec fn model_drop_statement(m: DriverModel, j: int) -> DriverModel {
    let sid = m.session_of(j);
    if m.sessions[sid].live {
        DriverModel {
            sessions: m.sessions.update(sid, model_deregister(m.sessions[sid], j as usize)),
            statements: m.statements.update(j, model_statement_dropped(m.statements[j], true)),
            cursors: m.cursors,
        }
    } else {
        DriverModel {
            sessions: m.sessions,
            statements: m.statements.update(j, model_statement_dropped(m.statements[j], false)),
            cursors: m.cursors,
        }
    }
}

/// Whether dropping the statement ends its native handle now: only when the
/// parent session is still alive and the handle has not been ended before.
pub open spec fn model_drop_ends_now(m: DriverModel, j: int) -> bool {
    m.parent_session_live(j) && !m.statements[j].ended
}

/// The liveness gate every statement-level operation passes first: a
/// statement whose parent session is gone fails with the "connection
/// dropped" error before any native handle is touched.
pub open spec fn model_statement_gate(m: DriverModel, j: int) -> Result<(), i32> {
    if !m.parent_session_live(j) {
        Err(ERR_CONNECTION_DROPPED)
    } else {
        Ok(())
    }
}

// ---------------------------------------------------------------------------
// Small exec helpers.
// ---------------------------------------------------------------------------

/// Hands out a statement slot for in-place update.
pub(crate) fn statement_slot_mut(statements: &mut Vec<StatementSlot>, i: usize) -> (element: &mut StatementSlot)
    requires
        i < old(statements).len(),
    ensures
        *element == old(statements)@[i as int],
        final(statements)@ == old(statements)@.update(i as int, *final(element)),
{
    &mut statements[i]
}

/// Hands out a session slot for in-place update.
pub(crate) fn session_slot_mut(sessions: &mut Vec<SessionSlot>, i: usize) -> (element: &mut SessionSlot)
    requires
        i < old(sessions).len(),
    ensures
        *element == old(sessions)@[i as int],
        final(sessions)@ == old(sessions)@.update(i as int, *final(element)),
{
    &mut sessions[i]
}

/// Decides whether a string holds an interior NUL byte, which the native
/// layer's text encoding cannot carry.
pub fn contains_nul(s: &str) -> (r: bool)
    ensures
        r == s@.contains('\u{0}'),
{
    let n = s.unicode_len();
    let mut i: usize = 0;
    while i < n
        invariant
            n == s@.len(),
            i <= n,
            forall|k: int| 0 <= k < i ==> s@[k] != '\u{0}',
        decreases n - i,
    {
        if s.get_char(i) == '\u{0}' {
            proof {
                assert(s@[i as int] == '\u{0}');
            }
            return true;
        }
        i += 1;
    }
    false
}

/// Some element of the first `k` entries equals `x`.
pub open spec fn prefix_contains(reg: Seq<usize>, k: int, x: usize) -> bool {
    exists|w: int| 0 <= w < k && reg[w] == x
}

/// Over the whole sequence, the prefix predicate is membership.
proof fn lemma_prefix_contains_all(reg: Seq<usize>, x: usize)
    ensures
        prefix_contains(reg, reg.len() as int, x) == reg.contains(x),
{
    if prefix_contains(reg, reg.len() as int, x) {
        let w = choose|w: int| 0 <= w < reg.len() && reg[w] == x;
        assert(reg[w] == x);
        assert(reg.contains(x));
    }
    if reg.contains(x) {
        let w = choose|w: int| 0 <= w < reg.len() && reg[w] == x;
        assert(0 <= w < reg.len() && reg[w] == x);
        assert(prefix_contains(reg, reg.len() as int, x));
    }
}

/// Filtering keeps a duplicate-free sequence duplicate-free, and every kept
/// element comes from the sequence filtered.
proof fn lemma_filter_no_duplicates<A>(s: Seq<A>, pred: spec_fn(A) -> bool)
    requires
        s.no_duplicates(),
    ensures
        s.filter(pred).no_duplicates(),
        forall|x: A| #[trigger] s.filter(pred).contains(x) ==> s.contains(x),
    decreases s.len(),
{
    reveal(Seq::filter);
    if s.len() == 0 {
        assert(s.filter(pred) =~= Seq::<A>::empty());
    } else {
        let rest = s.drop_last();
        let last = s.last();
        assert(rest.no_duplicates());
        lemma_filter_no_duplicates(rest, pred);
        assert forall|x: A| #[trigger] rest.contains(x) implies s.contains(x) by {
            let w = choose|w: int| 0 <= w < rest.len() && rest[w] == x;
            assert(s[w] == x);
        }
        if pred(last) {
            let out = rest.filter(pred).push(last);
            assert(s.filter(pred) == out);
            assert(!rest.filter(pred).contains(last)) by {
                if rest.filter(pred).contains(last) {
                    assert(rest.contains(last));
                    let w = choose|w: int| 0 <= w < rest.len() && rest[w] == last;
                    assert(s[w] == s[s.len() - 1]);
                }
            }
            assert forall|i: int, k: int|
                0 <= i < out.len() && 0 <= k < out.len() && i != k implies out[i] != out[k] by {
                if i == out.len() - 1 {
                    assert(rest.filter(pred)[k] == out[k]);
                    assert(rest.filter(pred).contains(out[k]));
                } else if k == out.len() - 1 {
                    assert(rest.filter(pred)[i] == out[i]);
                    assert(rest.filter(pred).contains(out[i]));
                }
            }
            assert forall|x: A| #[trigger] s.filter(pred).contains(x) implies s.contains(x) by {
                let w = choose|w: int| 0 <= w < out.len() && out[w] == x;
                if w == out.len() - 1 {
                    assert(s[s.len() - 1] == last);
                } else {
                    assert(rest.filter(pred)[w] == x);
                    assert(rest.filter(pred).contains(x));
                }
            }
        } else {
            assert(s.filter(pred) == rest.filter(pred));
            assert forall|x: A| #[trigger] s.filter(pred).contains(x) implies s.contains(x) by {
                assert(rest.contains(x));
            }
        }
    }
}

// ---------------------------------------------------------------------------
// Session-level operations.
// ---------------------------------------------------------------------------

impl Driver {
    /// A fresh driver with no slots.
    pub fn new() -> (r: Driver)
        ensures
            r@.sessions.len() == 0,
            r@.statements.len() == 0,
            r@.cursors.len() == 0,
            r@.wf(),
    {
        let d = Driver { sessions: Vec::new(), statements: Vec::new(), cursors: Vec::new() };
        proof {
            assert(d@.sessions =~= Seq::<SessionModel>::empty());
            assert(d@.statements =~= Seq::<StatementModel>::empty());
            assert(d@.cursors =~= Seq::<CursorModel>::empty());
        }
        d
    }

    /// Opens a session: the outcome of the native connect call (its status
    /// and whether the returned handle was null) decides between a new live
    /// session and a connect error.
    ///
    /// A credential string holding an interior NUL cannot be encoded for the
    /// native layer and is rejected before any native call. A null handle
    /// returned by a successful connect is translated into the distinguished
    /// "invalid handle" error. The native connect never returns a positive
    /// status; the embedding must abort on one rather than call in.
    pub fn open_session(
        &mut self,
        database: &str,
        ident: &str,
        password: &str,
        rc: i32,
        handle_is_null: bool,
    ) -> (r: Result<usize, MimerError>)
        requires
            old(self)@.wf(),
            rc <= MIMER_SUCCESS,
        ensures
            final(self)@.wf(),
            final(self)@.statements == old(self)@.statements,
            final(self)@.cursors == old(self)@.cursors,
            ({
                let bad_text = database@.contains('\u{0}') || ident@.contains('\u{0}')
                    || password@.contains('\u{0}');
                match r {
                    Ok(sid) => {
                        &&& !bad_text
                        &&& rc == MIMER_SUCCESS
                        &&& !handle_is_null
                        &&& sid == old(self)@.sessions.len()
                        &&& final(self)@.sessions == old(self)@.sessions.push(
                            SessionModel {
                                live: true,
                                registry: Seq::empty(),
                                transaction_open: false,
                            },
                        )
                    },
                    Err(e) => {
                        &&& final(self)@.sessions == old(self)@.sessions
                        &&& e.error_message@ == crate::error::spec_local_message(
                            e.error_code as int,
                        )
                        &&& e.error_code == if bad_text {
                            ERR_INTERNAL
                        } else if rc < 0 {
                            rc
                        } else {
                            ERR_NULL_SESSION
                        }
                        &&& !(rc == MIMER_SUCCESS && !handle_is_null && !bad_text)
                    },
                }
            }),
    {
        if contains_nul(database) || contains_nul(ident) || contains_nul(password) {
            return Err(MimerError::mimer_error_from_code(ERR_INTERNAL));
        }
        if rc < MIMER_SUCCESS {
            return Err(MimerError::mimer_error_from_code(rc));
        }
        if handle_is_null {
            return Err(MimerError::mimer_error_from_code(ERR_NULL_SESSION));
        }
        let sid = self.sessions.len();
        self.sessions.push(
            SessionSlot { live: true, registry: Vec::new(), transaction_open: false },
        );
        proof {
            let m0 = old(self)@;
            let m1 = self@;
            let fresh = SessionModel { live: true, registry: Seq::empty(), transaction_open: false };
            assert(m1.sessions =~= m0.sessions.push(fresh));
            assert(m1.statements =~= m0.statements);
            assert(m1.cursors =~= m0.cursors);
            lemma_open_session_wf(m0, m1, fresh);
        }
        Ok(sid)
    }

    /// Executes an ad-hoc statement on a session, for queries without named
    /// parameters. The statement text is encoded for the native layer (an
    /// interior NUL is rejected), and the native execute's status is
    /// classified: zero is success, negative is the error returned. The
    /// native call never returns a positive status; the embedding must abort
    /// on one rather than call in.
    pub fn execute_statement(&mut self, sid: usize, sqlstatement: &str, rc: i32) -> (r: Result<
        i32,
        i32,
    >)
        requires
            old(self)@.wf(),
            sid < old(self)@.sessions.len(),
            rc <= MIMER_SUCCESS,
        ensures
            final(self)@ == old(self)@,
            r == (if !old(self)@.sessions[sid as int].live {
                Err::<i32, i32>(ERR_CONNECTION_DROPPED)
            } else if sqlstatement@.contains('\u{0}') {
                Err::<i32, i32>(ERR_INTERNAL)
            } else if rc < 0 {
                Err::<i32, i32>(rc)
            } else {
                Ok::<i32, i32>(MIMER_SUCCESS)
            }),
    {
        if !self.sessions[sid].live {
            return Err(ERR_CONNECTION_DROPPED);
        }
        if contains_nul(sqlstatement) {
            return Err(ERR_INTERNAL);
        }
        if rc < MIMER_SUCCESS {
            return Err(rc);
        }
        Ok(MIMER_SUCCESS)
    }

    /// Obtains server statistics: the native layer fills the counter array in
    /// place. On success the counters are replaced by the values the native
    /// call filled in; no counters are modified on error.
    pub fn get_statistics(
        &mut self,
        sid: usize,
        counters: &mut Vec<i32>,
        rc: i32,
        filled: Vec<i32>,
    ) -> (r: Result<i32, i32>)
        requires
            old(self)@.wf(),
            sid < old(self)@.sessions.len(),
            filled@.len() == old(counters)@.len(),
        ensures
            final(self)@ == old(self)@,
            r == (if !old(self)@.sessions[sid as int].live {
                Err::<i32, i32>(ERR_CONNECTION_DROPPED)
            } else if rc != MIMER_SUCCESS {
                Err::<i32, i32>(rc)
            } else {
                Ok::<i32, i32>(MIMER_SUCCESS)
            }),
            r is Ok ==> final(counters)@ == filled@,
            r is Err ==> final(counters)@ == old(counters)@,
    {
        if !self.sessions[sid].live {
            return Err(ERR_CONNECTION_DROPPED);
        }
        if rc != MIMER_SUCCESS {
            return Err(rc);
        }
        *counters = filled;
        Ok(MIMER_SUCCESS)
    }

    /// Describes a status code against this session: a driver-local code is
    /// resolved from the fixed local table; any other code is described by
    /// the native error fetch, whose outcome the embedding passes in. A
    /// closed session has no live handle to ask, and such a code then
    /// describes the "connection dropped" condition instead.
    pub fn get_error(
        &self,
        sid: usize,
        error_code: i32,
        probe: i32,
        fill: i32,
        native_code: i32,
        text: Option<String>,
    ) -> (r: MimerError)
        requires
            self@.wf(),
            sid < self@.sessions.len(),
        ensures
            (r.error_code, r.error_message@) == MimerError::spec_describe(
                error_code,
                if self@.sessions[sid as int].live {
                    Ok(())
                } else {
                    Err(ERR_CONNECTION_DROPPED)
                },
                probe,
                fill,
                native_code,
                text,
            ),
    {
        let handle: Result<(), i32> = if self.sessions[sid].live {
            Ok(())
        } else {
            Err(ERR_CONNECTION_DROPPED)
        };
        MimerError::describe(error_code, handle, probe, fill, native_code, text)
    }

    /// Closes a session: force-ends the native handle of every statement
    /// still registered (ignoring that some may already be orphaned), then
    /// closes the native session handle, under the process-wide
    /// connect/disconnect serialization. Afterwards every operation on a
    /// statement of this session fails with the "connection dropped" error.
    /// A native failure during this teardown has no caller to surface to and
    /// is unrecoverable: the embedding must abort on one rather than
    /// continue, since the resources would otherwise leak.
    pub fn close_session(&mut self, sid: usize)
        requires
            old(self)@.wf(),
            sid < old(self)@.sessions.len(),
            old(self)@.sessions[sid as int].live,
        ensures
            final(self)@ == model_close_session(old(self)@, sid as int),
            final(self)@.wf(),
    {
        let ghost m0 = self@;
        let ghost reg = m0.sessions[sid as int].registry;
        proof {
            assert(m0.registry_wf(sid as int));
        }
        let registry_len = self.sessions[sid].registry.len();
        let mut k: usize = 0;
        while k < registry_len
            invariant
                m0.wf(),
                sid < m0.sessions.len(),
                m0.sessions[sid as int].live,
                m0.registry_wf(sid as int),
                reg == m0.sessions[sid as int].registry,
                registry_len == reg.len(),
                k <= registry_len,
                self@.sessions == m0.sessions,
                self@.cursors == m0.cursors,
                self@.statements.len() == m0.statements.len(),
                forall|j: int|
                    0 <= j < m0.statements.len() ==> self@.statements[j] == model_end_if(
                        m0.statements[j],
                        prefix_contains(reg, k as int, j as usize),
                    ),
            decreases registry_len - k,
        {
            let id = self.sessions[sid].registry[k];
            proof {
                assert(reg[k as int] == id);
                assert((id as int) < m0.statements.len());
            }
            let ghost before = self@.statements;
            let slot = statement_slot_mut(&mut self.statements, id);
            slot.ended = true;
            proof {
                assert forall|j: int| 0 <= j < m0.statements.len() implies self@.statements[j]
                    == model_end_if(
                    m0.statements[j],
                    prefix_contains(reg, k as int + 1, j as usize),
                ) by {
                    if j == id as int {
                        assert(0 <= k < k + 1 && reg[k as int] == id);
                        assert(prefix_contains(reg, k as int + 1, id));
                        assert(before[j] == model_end_if(
                            m0.statements[j],
                            prefix_contains(reg, k as int, id),
                        ));
                    } else {
                        assert(m0.statements.len() <= usize::MAX);
                        assert((j as usize) != id);
                        assert(self@.statements[j] == before[j]);
                        if prefix_contains(reg, k as int + 1, j as usize) {
                            let w = choose|w: int| 0 <= w < k + 1 && reg[w] == j as usize;
                            assert(w != k);
                            assert(0 <= w < k && reg[w] == j as usize);
                            assert(prefix_contains(reg, k as int, j as usize));
                        } else {
                            if prefix_contains(reg, k as int, j as usize) {
                                let w = choose|w: int| 0 <= w < k && reg[w] == j as usize;
                                assert(0 <= w < k + 1 && reg[w] == j as usize);
                            }
                        }
                    }
                }
            }
            k += 1;
        }
        let slot = session_slot_mut(&mut self.sessions, sid);
        slot.live = false;
        proof {
            let m1 = model_close_session(m0, sid as int);
            assert(self@.sessions =~= m1.sessions);
            assert forall|j: int| 0 <= j < m0.statements.len() implies self@.statements[j]
                == m1.statements[j] by {
                lemma_prefix_contains_all(reg, j as usize);
            }
            assert(self@.statements =~= m1.statements);
            assert(self@.cursors =~= m1.cursors);
            assert(self@ =~~= m1);
            lemma_close_session_wf(m0, sid as int);
        }
    }

    /// Prepares a statement on a session. The outcomes of the native prepare
    /// call and of the parameter-count query decide the result; on success
    /// the new statement is registered in the session's registry before its
    /// identity is returned. Fails with the "connection dropped" error if the
    /// session is already gone, before any native call. The native prepare
    /// never returns a positive status; the embedding must abort on one
    /// rather than call in.
    pub fn prepare(
        &mut self,
        sid: usize,
        sqlstatement: &str,
        cursor_mode: CursorMode,
        rc: i32,
        handle_is_null: bool,
        param_count_rc: i32,
    ) -> (r: Result<usize, i32>)
        requires
            old(self)@.wf(),
            sid < old(self)@.sessions.len(),
            rc <= MIMER_SUCCESS,
        ensures
            final(self)@.wf(),
            final(self)@.cursors == old(self)@.cursors,
            match r {
                Ok(j) => {
                    &&& old(self)@.sessions[sid as int].live
                    &&& !sqlstatement@.contains('\u{0}')
                    &&& rc == MIMER_SUCCESS
                    &&& param_count_rc >= 0
                    &&& j == old(self)@.statements.len()
                    &&& final(self)@.statements == old(self)@.statements.push(
                        StatementModel {
                            session: sid,
                            live: true,
                            ended: false,
                            null_handle: handle_is_null,
                            cursor_mode,
                            num_params: param_count_rc as usize,
                            batched: 0,
                            pending: false,
                        },
                    )
                    &&& final(self)@.sessions == old(self)@.sessions.update(
                        sid as int,
                        SessionModel {
                            live: true,
                            registry: old(self)@.sessions[sid as int].registry.push(j as usize),
                            transaction_open: old(self)@.sessions[sid as int].transaction_open,
                        },
                    )
                },
                Err(e) => {
                    &&& final(self)@ == old(self)@
                    &&& e == if !old(self)@.sessions[sid as int].live {
                        ERR_CONNECTION_DROPPED
                    } else if sqlstatement@.contains('\u{0}') {
                        ERR_INTERNAL
                    } else if rc < 0 {
                        rc
                    } else {
                        param_count_rc
                    }
                    &&& e < 0
                },
            },
    {
        if !self.sessions[sid].live {
            return Err(ERR_CONNECTION_DROPPED);
        }
        if contains_nul(sqlstatement) {
            return Err(ERR_INTERNAL);
        }
        if rc < MIMER_SUCCESS {
            return Err(rc);
        }
        if param_count_rc < 0 {
            return Err(param_count_rc);
        }
        let j = self.statements.len();
        self.statements.push(
            StatementSlot {
                session: sid,
                live: true,
                ended: false,
                null_handle: handle_is_null,
                cursor_mode,
                num_params: param_count_rc as usize,
                batched: 0,
                pending: false,
            },
        );
        let total = self.statements.len();
        let slot = session_slot_mut(&mut self.sessions, sid);
        slot.registry.push(j);
        proof {
            let m0 = old(self)@;
            let m1 = self@;
            assert(m1.statements.len() == total);
            let fresh = StatementModel {
                session: sid,
                live: true,
                ended: false,
                null_handle: handle_is_null,
                cursor_mode,
                num_params: param_count_rc as usize,
                batched: 0,
                pending: false,
            };
            assert(m1.statements =~= m0.statements.push(fresh));
            assert(m1.sessions =~= m0.sessions.update(
                sid as int,
                SessionModel {
                    live: true,
                    registry: m0.sessions[sid as int].registry.push(j as usize),
                    transaction_open: m0.sessions[sid as int].transaction_open,
                },
            ));
            assert(m1.cursors =~= m0.cursors);
            lemma_prepare_wf(m0, m1, sid as int, j);
        }
        Ok(j)
    }

    /// Drops a statement object. If the parent session is still alive, the
    /// statement deregisters itself from the session's registry and ends the
    /// native statement handle; if the session is already gone, teardown is a
    /// no-op at the native layer. Returns whether the native handle was ended
    /// by this call.
    pub fn drop_statement(&mut self, j: usize) -> (ended_now: bool)
        requires
            old(self)@.wf(),
            j < old(self)@.statements.len(),
            old(self)@.statements[j as int].live,
        ensures
            final(self)@ == model_drop_statement(old(self)@, j as int),
            final(self)@.wf(),
            ended_now == model_drop_ends_now(old(self)@, j as int),
    {
        let ghost m0 = self@;
        proof {
            assert(m0.stmt_in_range(j as int));
        }
        let sid = self.statements[j].session;
        let session_live = self.sessions[sid].live;
        proof {
            if session_live {
                assert(m0.registry_wf(sid as int));
                assert(m0.sessions[sid as int].registry.contains(j));
                let w = choose|w: int|
                    0 <= w < m0.sessions[sid as int].registry.len() && m0.sessions[
                        sid as int].registry[w] == j;
                assert(m0.sessions[sid as int].registry[w] == j);
                assert(!m0.statements[j as int].ended);
            }
        }
        if session_live {
            // Deregister from the session, then end the native handle.
            let slot = session_slot_mut(&mut self.sessions, sid);
            let mut kept: Vec<usize> = Vec::new();
            let reg_len = slot.registry.len();
            let mut k: usize = 0;
            while k < reg_len
                invariant
                    reg_len == slot.registry.len(),
                    k <= reg_len,
                    kept@ == slot.registry@.take(k as int).filter(keep_other(j)),
                decreases reg_len - k,
            {
                let id = slot.registry[k];
                proof {
                    let prefix = slot.registry@.take(k as int);
                    let next = slot.registry@.take(k as int + 1);
                    assert(next =~= prefix.push(id));
                    prefix.lemma_filter_push(id, keep_other(j));
                    assert(keep_other(j)(id) == (id != j));
                }
                if id != j {
                    kept.push(id);
                }
                k += 1;
            }
            proof {
                assert(slot.registry@.take(reg_len as int) =~= slot.registry@);
            }
            slot.registry = kept;
            let stmt = statement_slot_mut(&mut self.statements, j);
            stmt.live = false;
            stmt.ended = true;
            proof {
                let m1 = model_drop_statement(m0, j as int);
                assert(self@.sessions =~= m1.sessions);
                assert(self@.statements =~= m1.statements);
                assert(self@.cursors =~= m1.cursors);
                assert(self@ =~~= m1);
                lemma_drop_statement_wf(m0, j as int);
            }
            true
        } else {
            let stmt = statement_slot_mut(&mut self.statements, j);
            stmt.live = false;
            proof {
                let m1 = model_drop_statement(m0, j as int);
                assert(self@.sessions =~= m1.sessions);
                assert(self@.statements =~= m1.statements);
                assert(self@.cursors =~= m1.cursors);
                assert(self@ =~~= m1);
                lemma_drop_statement_wf(m0, j as int);
            }
            false
        }
    }
}

// ---------------------------------------------------------------------------
// Invariant preservation.
// ---------------------------------------------------------------------------

/// Pushing a fresh, empty session preserves the registry invariant.
proof fn lemma_open_session_wf(m: DriverModel, m1: DriverModel, fresh: SessionModel)
    requires
        m.wf(),
        fresh.registry.len() == 0,
        m1.sessions == m.sessions.push(fresh),
        m1.statements == m.statements,
        m1.cursors == m.cursors,
    ensures
        m1.wf(),
{
    assert forall|j: int| 0 <= j < m1.statements.len() implies m1.stmt_in_range(j) by {
        assert(m.stmt_in_range(j));
    }
    assert forall|i: int|
        0 <= i < m1.sessions.len() && (#[trigger] m1.sessions[i]).live implies m1.registry_wf(
        i,
    ) by {
        if i < m.sessions.len() {
            assert(m1.sessions[i] == m.sessions[i]);
            assert(m.sessions[i].live);
            assert(m.registry_wf(i));
            assert forall|k: int|
                0 <= k < m1.sessions[i].registry.len() implies {
                let x = #[trigger] m1.sessions[i].registry[k] as int;
                &&& x < m1.statements.len()
                &&& m1.statements[x].session == i
                &&& m1.statements[x].live
                &&& !m1.statements[x].ended
            } by {
                assert(m.sessions[i].registry[k] == m1.sessions[i].registry[k]);
            }
            assert forall|x: int|
                0 <= x < m1.statements.len() && (#[trigger] m1.statements[x]).session == i
                    && m1.statements[x].live implies m1.sessions[i].registry.contains(
                x as usize,
            ) by {
                assert(m.statements[x].session == i && m.statements[x].live);
            }
        } else {
            assert(i == m.sessions.len());
            assert(m1.sessions[i] == fresh);
            assert forall|x: int|
                0 <= x < m1.statements.len() && (#[trigger] m1.statements[x]).session == i
                    && m1.statements[x].live implies m1.sessions[i].registry.contains(
                x as usize,
            ) by {
                assert(m.stmt_in_range(x));
            }
        }
    }
    assert forall|c: int| 0 <= c < m1.cursors.len() implies m1.cursor_ok(c) by {
        assert(m.cursor_ok(c));
        assert(m1.cursors[c] == m.cursors[c]);
    }
}

/// Closing a session preserves the registry invariant.
proof fn lemma_close_session_wf(m: DriverModel, sid: int)
    requires
        m.wf(),
        0 <= sid < m.sessions.len(),
        m.sessions[sid].live,
    ensures
        model_close_session(m, sid).wf(),
{
    let m1 = model_close_session(m, sid);
    assert forall|j: int| 0 <= j < m1.statements.len() implies m1.stmt_in_range(j) by {
        assert(m.stmt_in_range(j));
    }
    assert forall|i: int|
        0 <= i < m1.sessions.len() && (#[trigger] m1.sessions[i]).live implies m1.registry_wf(
        i,
    ) by {
        assert(i != sid);
        assert(m1.sessions[i] == m.sessions[i]);
        assert(m.sessions[i].live);
        assert(m.registry_wf(i));
        assert forall|k: int|
            0 <= k < m1.sessions[i].registry.len() implies {
            let x = #[trigger] m1.sessions[i].registry[k] as int;
            &&& x < m1.statements.len()
            &&& m1.statements[x].session == i
            &&& m1.statements[x].live
            &&& !m1.statements[x].ended
        } by {
            assert(m.sessions[i].registry[k] == m1.sessions[i].registry[k]);
            let x = m1.sessions[i].registry[k] as int;
            assert(m.statements[x].session == i);
            assert(!m.sessions[sid].registry.contains(x as usize)) by {
                if m.sessions[sid].registry.contains(x as usize) {
                    let w = choose|w: int|
                        0 <= w < m.sessions[sid].registry.len() && m.sessions[sid].registry[w]
                            == x as usize;
                    assert(m.sessions[sid].registry[w] == x as usize);
                    assert(m.statements[x].session == sid);
                }
            }
        }
        assert forall|x: int|
            0 <= x < m1.statements.len() && (#[trigger] m1.statements[x]).session == i
                && m1.statements[x].live implies m1.sessions[i].registry.contains(x as usize) by {
            assert(m.statements[x].session == i && m.statements[x].live);
        }
    }
    assert forall|c: int| 0 <= c < m1.cursors.len() implies m1.cursor_ok(c) by {
        assert(m.cursor_ok(c));
        assert(m1.cursors[c] == m.cursors[c]);
    }
}

/// Registering a freshly prepared statement preserves the registry
/// invariant.
proof fn lemma_prepare_wf(m: DriverModel, m1: DriverModel, sid: int, j: usize)
    requires
        m.wf(),
        0 <= sid < m.sessions.len(),
        m.sessions[sid].live,
        j == m.statements.len(),
        m1.statements.len() == m.statements.len() + 1,
        m1.statements.len() <= usize::MAX,
        forall|x: int| 0 <= x < m.statements.len() ==> m1.statements[x] == m.statements[x],
        m1.statements[j as int].session == sid,
        m1.statements[j as int].live,
        !m1.statements[j as int].ended,
        m1.sessions == m.sessions.update(
            sid,
            SessionModel {
                live: true,
                registry: m.sessions[sid].registry.push(j),
                transaction_open: m.sessions[sid].transaction_open,
            },
        ),
        m1.cursors == m.cursors,
    ensures
        m1.wf(),
{
    assert forall|x: int| 0 <= x < m1.statements.len() implies m1.stmt_in_range(x) by {
        if x < m.statements.len() {
            assert(m.stmt_in_range(x));
        }
    }
    assert forall|i: int|
        0 <= i < m1.sessions.len() && (#[trigger] m1.sessions[i]).live implies m1.registry_wf(
        i,
    ) by {
        if i == sid {
            assert(m.registry_wf(i));
            let reg0 = m.sessions[sid].registry;
            let reg1 = m1.sessions[sid].registry;
            assert(reg1 == reg0.push(j));
            assert forall|k: int|
                0 <= k < reg1.len() implies {
                let x = #[trigger] reg1[k] as int;
                &&& x < m1.statements.len()
                &&& m1.statements[x].session == i
                &&& m1.statements[x].live
                &&& !m1.statements[x].ended
            } by {
                if k < reg0.len() {
                    assert(reg1[k] == reg0[k]);
                } else {
                    assert(reg1[k] == j);
                }
            }
            assert forall|x: int|
                0 <= x < m1.statements.len() && (#[trigger] m1.statements[x]).session == i
                    && m1.statements[x].live implies reg1.contains(x as usize) by {
                if x < m.statements.len() {
                    assert(m.statements[x].session == i && m.statements[x].live);
                    assert(reg0.contains(x as usize));
                    let w = choose|w: int| 0 <= w < reg0.len() && reg0[w] == x as usize;
                    assert(reg1[w] == x as usize);
                } else {
                    assert(x == j);
                    assert(reg1[reg1.len() - 1] == j);
                }
            }
            assert(reg1.no_duplicates()) by {
                assert forall|k1: int, k2: int|
                    0 <= k1 < reg1.len() && 0 <= k2 < reg1.len() && k1 != k2 implies reg1[k1]
                    != reg1[k2] by {
                    if k1 < reg0.len() && k2 < reg0.len() {
                        assert(reg0.no_duplicates());
                    } else if k1 < reg0.len() {
                        assert(reg1[k2] == j);
                        assert(reg1[k1] == reg0[k1]);
                        assert((reg0[k1] as int) < m.statements.len());
                    } else {
                        assert(reg1[k1] == j);
                        assert(reg1[k2] == reg0[k2]);
                        assert((reg0[k2] as int) < m.statements.len());
                    }
                }
            }
        } else {
            assert(m1.sessions[i] == m.sessions[i]);
            assert(m.sessions[i].live);
            assert(m.registry_wf(i));
            assert forall|k: int|
                0 <= k < m1.sessions[i].registry.len() implies {
                let x = #[trigger] m1.sessions[i].registry[k] as int;
                &&& x < m1.statements.len()
                &&& m1.statements[x].session == i
                &&& m1.statements[x].live
                &&& !m1.statements[x].ended
            } by {
                assert(m.sessions[i].registry[k] == m1.sessions[i].registry[k]);
                let x = m1.sessions[i].registry[k] as int;
                assert(x < m.statements.len());
            }
            assert forall|x: int|
                0 <= x < m1.statements.len() && (#[trigger] m1.statements[x]).session == i
                    && m1.statements[x].live implies m1.sessions[i].registry.contains(
                x as usize,
            ) by {
                assert(x != j as int) by {
                    if x == j as int {
                        assert(m1.statements[j as int].session == sid);
                    }
                }
                assert(m.statements[x].session == i && m.statements[x].live);
            }
        }
    }
    assert forall|c: int| 0 <= c < m1.cursors.len() implies m1.cursor_ok(c) by {
        assert(m.cursor_ok(c));
        assert(m1.cursors[c] == m.cursors[c]);
    }
}

/// Dropping a statement preserves the registry invariant.
proof fn lemma_drop_statement_wf(m: DriverModel, j: int)
    requires
        m.wf(),
        0 <= j < m.statements.len(),
        m.statements[j].live,
    ensures
        model_drop_statement(m, j).wf(),
{
    let m1 = model_drop_statement(m, j);
    let sid = m.session_of(j);
    assert(m.stmt_in_range(j));
    assert forall|x: int| 0 <= x < m1.statements.len() implies m1.stmt_in_range(x) by {
        assert(m.stmt_in_range(x));
    }
    assert forall|i: int|
        0 <= i < m1.sessions.len() && (#[trigger] m1.sessions[i]).live implies m1.registry_wf(
        i,
    ) by {
        assert(m.sessions[i].live) by {
            if m.sessions[sid].live && i == sid {
                assert(m1.sessions[sid] == model_deregister(m.sessions[sid], j as usize));
            }
        }
        assert(m.registry_wf(i));
        if m.sessions[sid].live && i == sid {
            let reg0 = m.sessions[i].registry;
            let reg1 = m1.sessions[i].registry;
            let pred = keep_other(j as usize);
            assert(reg1 == reg0.filter(pred));
            lemma_filter_no_duplicates(reg0, pred);
            assert forall|k: int|
                0 <= k < reg1.len() implies {
                let x = #[trigger] reg1[k] as int;
                &&& x < m1.statements.len()
                &&& m1.statements[x].session == i
                &&& m1.statements[x].live
                &&& !m1.statements[x].ended
            } by {
                assert(reg1.contains(reg1[k]));
                assert(reg0.contains(reg1[k]));
                let w = choose|w: int| 0 <= w < reg0.len() && reg0[w] == reg1[k];
                assert(reg0[w] == reg1[k]);
                reg0.lemma_filter_pred(pred, k);
                assert(reg1[k] != j as usize);
            }
            assert forall|x: int|
                0 <= x < m1.statements.len() && (#[trigger] m1.statements[x]).session == i
                    && m1.statements[x].live implies reg1.contains(x as usize) by {
                assert(x != j);
                assert(m.statements[x].session == i && m.statements[x].live);
                assert(reg0.contains(x as usize));
                let w = choose|w: int| 0 <= w < reg0.len() && reg0[w] == x as usize;
                assert(reg0[w] == x as usize);
                assert(m.statements.len() <= usize::MAX);
                assert(pred(reg0[w]));
                reg0.lemma_filter_contains(pred, w);
            }
        } else {
            assert(m1.sessions[i] == m.sessions[i]);
            let reg0 = m.sessions[i].registry;
            assert forall|k: int|
                0 <= k < reg0.len() implies {
                let x = #[trigger] reg0[k] as int;
                &&& x < m1.statements.len()
                &&& m1.statements[x].session == i
                &&& m1.statements[x].live
                &&& !m1.statements[x].ended
            } by {
                let x = reg0[k] as int;
                assert(m.statements[x].session == i);
                assert(x != j) by {
                    if x == j {
                        assert(i == sid);
                    }
                }
            }
            assert forall|x: int|
                0 <= x < m1.statements.len() && (#[trigger] m1.statements[x]).session == i
                    && m1.statements[x].live implies reg0.contains(x as usize) by {
                assert(x != j) by {
                    if x == j {
                        assert(m1.statements[j].live == false);
                    }
                }
                assert(m.statements[x].session == i && m.statements[x].live);
            }
        }
    }
    assert forall|c: int| 0 <= c < m1.cursors.len() implies m1.cursor_ok(c) by {
        assert(m.cursor_ok(c));
        assert(m1.cursors[c] == m.cursors[c]);
    }
}

// ---------------------------------------------------------------------------
// Laws.
// ---------------------------------------------------------------------------

/// Parent-drop safety: once a session is closed, every statement that was
/// created from it and is still held by the application fails the liveness
/// gate with the "connection dropped" error, for every later operation,
/// instead of touching the freed native session.
pub proof fn lemma_parent_drop_safety(m: DriverModel, sid: int, j: int)
    requires
        m.wf(),
        0 <= sid < m.sessions.len(),
        m.sessions[sid].live,
        0 <= j < m.statements.len(),
        m.statements[j].session == sid,
        m.statements[j].live,
    ensures
        model_statement_gate(model_close_session(m, sid), j) == Err::<(), i32>(
            ERR_CONNECTION_DROPPED,
        ),
{
    let m1 = model_close_session(m, sid);
    assert(m1.statements[j].session == sid);
    assert(!m1.sessions[sid].live);
}

/// Exactly-once teardown: dropping a statement after its session is already
/// closed performs no native end call — the handle was ended by the session's
/// own teardown, and ending the same native statement handle twice never
/// occurs.
pub proof fn lemma_exactly_once_teardown(m: DriverModel, sid: int, j: int)
    requires
        m.wf(),
        0 <= sid < m.sessions.len(),
        m.sessions[sid].live,
        0 <= j < m.statements.len(),
        m.statements[j].session == sid,
        m.statements[j].live,
    ensures
        !model_drop_ends_now(model_close_session(m, sid), j),
{
    let m1 = model_close_session(m, sid);
    assert(!m1.sessions[sid].live);
}

/// The set of identities of the live statements created from a session.
pub open spec fn live_statements_of(m: DriverModel, i: int) -> Set<usize> {
    Set::new(
        |x: usize|
            x < m.statements.len() && m.statements[x as int].session == i && m.statements[
                x as int].live,
    )
}

/// Registry consistency: a live session's registry holds exactly the set of
/// live statements created from it, and its length is their number.
pub proof fn lemma_registry_consistency(m: DriverModel, i: int)
    requires
        m.wf(),
        0 <= i < m.sessions.len(),
        m.sessions[i].live,
    ensures
        m.sessions[i].registry.to_set() == live_statements_of(m, i),
        m.sessions[i].registry.len() == live_statements_of(m, i).len(),
{
    let reg = m.sessions[i].registry;
    assert(m.registry_wf(i));
    assert forall|x: usize| reg.to_set().contains(x) implies live_statements_of(m, i).contains(
        x,
    ) by {
        assert(reg.contains(x));
        let w = choose|w: int| 0 <= w < reg.len() && reg[w] == x;
        assert(reg[w] == x);
    }
    assert forall|x: usize| live_statements_of(m, i).contains(x) implies reg.to_set().contains(
        x,
    ) by {
        assert(m.statements[x as int].session == i && m.statements[x as int].live);
        assert(reg.contains(x));
    }
    assert(reg.to_set() =~= live_statements_of(m, i));
    reg.unique_seq_to_set();
}

} // verus!

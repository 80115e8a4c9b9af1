//! Cursors over a statement's active result set.
//!
//! A cursor holds a non-owning back-reference to its statement and produces
//! rows one at a time: single-pass for a forward-only statement, arbitrary
//! repositioning within the result set's bounds for a scrollable one. Every
//! operation re-validates the parent chain — statement first, then session —
//! before anything touches the native cursor.
//!
//! Each scroll and fetch is a native call whose status enters here as an
//! argument and is classified: success yields the row at the position moved
//! to, the distinguished no-data status parks the cursor outside the result
//! set and yields nothing, and any other status is the error returned, with
//! the cursor state untouched. Alongside the classification the cursor keeps
//! a positioning model — the row count fixed at open, and the position as 0
//! before the first row, 1 up to the count on a row, one past the count
//! after the last row — which states what status a healthy server is
//! expected to return for each move.

use vstd::prelude::*;
use crate::codes::{MIMER_SUCCESS, MIMER_NO_DATA, MIMER_SEQUENCE_ERROR, ERR_CONNECTION_DROPPED,
    ERR_STATEMENT_DROPPED};
use crate::common::{CursorMode, ScrollOption};
use crate::driver::{Driver, DriverModel, CursorSlot, CursorModel};
use crate::row::Row;

verus! {

// ---------------------------------------------------------------------------
// Positioning semantics.
// ---------------------------------------------------------------------------

/// The unclamped position a scroll directive aims at: the offset counts for
/// the absolute and relative directives only, an absolute position counted
/// from the end is negative.
pub open spec fn spec_scroll_raw(option: ScrollOption, offset: int, pos: int, rows: int) -> int {
    match option {
        ScrollOption::NEXT => pos + 1,
        ScrollOption::PREVIOUS => pos - 1,
        ScrollOption::FIRST => 1,
        ScrollOption::LAST => rows,
        ScrollOption::ABSOLUTE => if offset >= 0 {
            offset
        } else {
            rows + offset + 1
        },
        ScrollOption::RELATIVE => pos + offset,
    }
}

/// A position clamped to the result set: aiming before the first row parks
/// the cursor before it, aiming past the last row parks it after it.
pub open spec fn spec_clamp(raw: int, rows: int) -> int {
    if raw < 1 {
        0
    } else if raw > rows {
        rows + 1
    } else {
        raw
    }
}

/// The position a scroll directive moves the cursor to.
pub open spec fn spec_scroll_target(option: ScrollOption, offset: int, pos: int, rows: int) -> int {
    spec_clamp(spec_scroll_raw(option, offset, pos, rows), rows)
}

/// A position denotes a row of the result set.
pub open spec fn spec_on_row(pos: int, rows: int) -> bool {
    1 <= pos <= rows
}

/// Computes the position a scroll directive moves a cursor to.
pub fn scroll_target(option: ScrollOption, offset: i32, pos: usize, rows: usize) -> (r: usize)
    requires
        pos <= rows + 1,
        rows < usize::MAX,
    ensures
        r == spec_scroll_target(option, offset as int, pos as int, rows as int),
        r <= rows + 1,
{
    let raw: i128 = match option {
        ScrollOption::NEXT => pos as i128 + 1,
        ScrollOption::PREVIOUS => pos as i128 - 1,
        ScrollOption::FIRST => 1,
        ScrollOption::LAST => rows as i128,
        ScrollOption::ABSOLUTE => if offset >= 0 {
            offset as i128
        } else {
            rows as i128 + offset as i128 + 1
        },
        ScrollOption::RELATIVE => pos as i128 + offset as i128,
    };
    if raw < 1 {
        0
    } else if raw > rows as i128 {
        rows + 1
    } else {
        raw as usize
    }
}

// ---------------------------------------------------------------------------
// Model transitions and result specs.
// ---------------------------------------------------------------------------

/// A driver whose cursor slot `c` stands at a new position after a fetch,
/// all else unchanged; the cursor caches a row exactly when the fetch
/// succeeded.
pub open spec fn model_cursor_fetched(m: DriverModel, c: int, pos: usize, has_row: bool) -> DriverModel {
    DriverModel {
        sessions: m.sessions,
        statements: m.statements,
        cursors: m.cursors.update(
            c,
            CursorModel {
                statement: m.cursors[c].statement,
                open: m.cursors[c].open,
                mode: m.cursors[c].mode,
                scroll_option: m.cursors[c].scroll_option,
                rows: m.cursors[c].rows,
                pos,
                has_row,
            },
        ),
    }
}

/// Classifies the status a native fetch or scroll call returned: success
/// means a row is available at the position moved to, the distinguished
/// no-data status means the cursor is now positioned outside the result
/// set, and any other status is the error.
pub open spec fn spec_classify_fetch(rc: i32) -> Result<bool, i32> {
    if rc == MIMER_SUCCESS {
        Ok(true)
    } else if rc == MIMER_NO_DATA {
        Ok(false)
    } else {
        Err(rc)
    }
}

/// The liveness gate of every cursor operation: the statement must still be
/// held, and its session must still be live.
pub open spec fn model_cursor_gate(m: DriverModel, c: int) -> Result<(), i32> {
    if !m.statements[m.cursors[c].statement as int].live {
        Err(ERR_STATEMENT_DROPPED)
    } else if !m.parent_session_live(m.cursors[c].statement as int) {
        Err(ERR_CONNECTION_DROPPED)
    } else {
        Ok(())
    }
}

/// What a scroll returns: the liveness gates, then the illegal-call-sequence
/// error for a forward-only cursor — any scroll is a scrollable-cursor call —
/// then the classification of the native scroll's status.
pub open spec fn model_scroll_result(m: DriverModel, c: int, rc: i32) -> Result<bool, i32> {
    if model_cursor_gate(m, c) is Err {
        Err(model_cursor_gate(m, c)->Err_0)
    } else if m.cursors[c].mode is Forward {
        Err(MIMER_SEQUENCE_ERROR)
    } else {
        spec_classify_fetch(rc)
    }
}

/// What an advance returns: the liveness gates, then the classification of
/// the native fetch's status. A forward-only cursor fetches plainly, a
/// scrollable one scrolls to the next row; the classification is the same.
pub open spec fn model_advance_result(m: DriverModel, c: int, rc: i32) -> Result<bool, i32> {
    if model_cursor_gate(m, c) is Err {
        Err(model_cursor_gate(m, c)->Err_0)
    } else {
        spec_classify_fetch(rc)
    }
}

/// The position a scroll of this cursor aims at.
pub open spec fn model_scroll_pos(m: DriverModel, c: int, offset: int) -> int {
    spec_scroll_target(
        m.cursors[c].scroll_option,
        offset,
        m.cursors[c].pos as int,
        m.cursors[c].rows as int,
    )
}

/// The position an advance of this cursor aims at.
pub open spec fn model_advance_pos(m: DriverModel, c: int) -> int {
    spec_scroll_target(ScrollOption::NEXT, 0, m.cursors[c].pos as int, m.cursors[c].rows as int)
}

/// The status a healthy server answers a scroll of this cursor with:
/// success where the aimed-at position holds a row of the result set, the
/// no-data status where the cursor parks outside it.
pub open spec fn model_expected_scroll_status(m: DriverModel, c: int, offset: int) -> i32 {
    if spec_on_row(model_scroll_pos(m, c, offset), m.cursors[c].rows as int) {
        MIMER_SUCCESS
    } else {
        MIMER_NO_DATA
    }
}

/// The status a healthy server answers an advance of this cursor with.
pub open spec fn model_expected_advance_status(m: DriverModel, c: int) -> i32 {
    if spec_on_row(model_advance_pos(m, c), m.cursors[c].rows as int) {
        MIMER_SUCCESS
    } else {
        MIMER_NO_DATA
    }
}

impl Driver {
    /// Opens a cursor on a statement's active result set. The cursor takes
    /// the statement's mode and starts before the first row with the
    /// next-row directive. `rows` fixes the positioning model: the result
    /// set's size, against which positions and expected fetch statuses are
    /// stated — each later fetch is still classified by the status the
    /// native call actually returned, so an embedding that cannot know the
    /// size up front loses only the expected-status laws, not the
    /// classification. Fails with the "connection dropped" error if the
    /// session is gone, before any native call; the native open never
    /// returns a positive status, and the embedding must abort on one
    /// rather than call in.
    pub fn open_cursor(&mut self, j: usize, rc: i32, rows: usize) -> (r: Result<usize, i32>)
        requires
            old(self)@.wf(),
            j < old(self)@.statements.len(),
            old(self)@.statements[j as int].live,
            rc <= MIMER_SUCCESS,
            rows < usize::MAX,
            rows + 1 <= i32::MAX,
        ensures
            final(self)@.wf(),
            final(self)@.sessions == old(self)@.sessions,
            final(self)@.statements == old(self)@.statements,
            match r {
                Ok(c) => {
                    &&& old(self)@.parent_session_live(j as int)
                    &&& rc == MIMER_SUCCESS
                    &&& c == old(self)@.cursors.len()
                    &&& final(self)@.cursors == old(self)@.cursors.push(
                        CursorModel {
                            statement: j,
                            open: true,
                            mode: old(self)@.statements[j as int].cursor_mode,
                            scroll_option: ScrollOption::NEXT,
                            rows,
                            pos: 0,
                            has_row: false,
                        },
                    )
                },
                Err(e) => {
                    &&& final(self)@ == old(self)@
                    &&& e == if !old(self)@.parent_session_live(j as int) {
                        ERR_CONNECTION_DROPPED
                    } else {
                        rc
                    }
                    &&& e < 0
                },
            },
    {
        proof {
            assert(self@.stmt_in_range(j as int));
        }
        let sid = self.statements[j].session;
        if !self.sessions[sid].live {
            return Err(ERR_CONNECTION_DROPPED);
        }
        if rc < MIMER_SUCCESS {
            return Err(rc);
        }
        let c = self.cursors.len();
        let mode = self.statements[j].cursor_mode;
        self.cursors.push(
            CursorSlot {
                statement: j,
                open: true,
                mode,
                scroll_option: ScrollOption::NEXT,
                rows,
                pos: 0,
                has_row: false,
            },
        );
        proof {
            let m0 = old(self)@;
            let m1 = self@;
            let fresh = CursorModel {
                statement: j,
                open: true,
                mode: m0.statements[j as int].cursor_mode,
                scroll_option: ScrollOption::NEXT,
                rows,
                pos: 0,
                has_row: false,
            };
            assert(m1.cursors =~= m0.cursors.push(fresh));
            assert(m1.sessions =~= m0.sessions);
            assert(m1.statements =~= m0.statements);
            assert(m1.wf()) by {
                assert forall|x: int| 0 <= x < m1.statements.len() implies m1.stmt_in_range(x) by {
                    assert(m0.stmt_in_range(x));
                }
                assert forall|i: int|
                    0 <= i < m1.sessions.len() && (#[trigger] m1.sessions[i]).live implies m1.registry_wf(
                    i,
                ) by {
                    assert(m0.sessions[i].live);
                    assert(m0.registry_wf(i));
                    assert(m1.sessions[i] == m0.sessions[i]);
                    assert forall|k: int|
                        0 <= k < m1.sessions[i].registry.len() implies {
                        let x = #[trigger] m1.sessions[i].registry[k] as int;
                        &&& x < m1.statements.len()
                        &&& m1.statements[x].session == i
                        &&& m1.statements[x].live
                        &&& !m1.statements[x].ended
                    } by {
                        assert(m0.sessions[i].registry[k] == m1.sessions[i].registry[k]);
                    }
                    assert forall|x: int|
                        0 <= x < m1.statements.len() && (#[trigger] m1.statements[x]).session == i
                            && m1.statements[x].live implies m1.sessions[i].registry.contains(
                        x as usize,
                    ) by {
                        assert(m0.statements[x].session == i && m0.statements[x].live);
                    }
                }
                assert forall|x: int| 0 <= x < m1.cursors.len() implies m1.cursor_ok(x) by {
                    if x < m0.cursors.len() {
                        assert(m0.cursor_ok(x));
                        assert(m1.cursors[x] == m0.cursors[x]);
                    } else {
                        assert(m1.cursors[x] == fresh);
                    }
                }
            }
        }
        Ok(c)
    }

    /// Sets the scroll directive the next scroll applies: a pure local
    /// mutation. Only meaningful on a scrollable cursor; on a forward-only
    /// one the misuse surfaces as the illegal-call-sequence error at the
    /// next scroll attempt, not here.
    pub fn set_scroll_option(&mut self, c: usize, option: ScrollOption)
        requires
            old(self)@.wf(),
            c < old(self)@.cursors.len(),
        ensures
            final(self)@.wf(),
            final(self)@ == (DriverModel {
                sessions: old(self)@.sessions,
                statements: old(self)@.statements,
                cursors: old(self)@.cursors.update(
                    c as int,
                    CursorModel {
                        statement: old(self)@.cursors[c as int].statement,
                        open: old(self)@.cursors[c as int].open,
                        mode: old(self)@.cursors[c as int].mode,
                        scroll_option: option,
                        rows: old(self)@.cursors[c as int].rows,
                        pos: old(self)@.cursors[c as int].pos,
                        has_row: old(self)@.cursors[c as int].has_row,
                    },
                ),
            }),
    {
        let ghost m0 = self@;
        proof {
            assert(m0.cursor_ok(c as int));
        }
        let slot = cursor_slot_mut(&mut self.cursors, c);
        slot.scroll_option = option;
        proof {
            assert(self@.cursors =~= m0.cursors.update(c as int, self@.cursors[c as int]));
            lemma_cursor_update_wf(m0, c as int, self@.cursors[c as int]);
            assert(self@ =~~= (DriverModel {
                sessions: m0.sessions,
                statements: m0.statements,
                cursors: m0.cursors.update(
                    c as int,
                    CursorModel {
                        statement: m0.cursors[c as int].statement,
                        open: m0.cursors[c as int].open,
                        mode: m0.cursors[c as int].mode,
                        scroll_option: option,
                        rows: m0.cursors[c as int].rows,
                        pos: m0.cursors[c as int].pos,
                        has_row: m0.cursors[c as int].has_row,
                    },
                ),
            }));
        }
    }

    /// Moves the cursor as the current scroll directive says, with the given
    /// offset — meaningful for the absolute and relative directives, ignored
    /// by the others — and classifies the status the native scroll call
    /// returned: success yields the row at the position moved to, the
    /// distinguished no-data status parks the cursor outside the result set
    /// and yields nothing, and any other status is the error, with the
    /// cursor state untouched. Any scroll on a forward-only cursor fails
    /// with the illegal-call-sequence error before the native call.
    pub fn scroll(&mut self, c: usize, offset: i32, rc: i32) -> (r: Result<Option<Row>, i32>)
        requires
            old(self)@.wf(),
            c < old(self)@.cursors.len(),
            old(self)@.cursors[c as int].open,
        ensures
            final(self)@.wf(),
            match r {
                Ok(Some(row)) => model_scroll_result(old(self)@, c as int, rc) == Ok::<
                    bool,
                    i32,
                >(true) && row.statement == old(self)@.cursors[c as int].statement,
                Ok(None) => model_scroll_result(old(self)@, c as int, rc) == Ok::<bool, i32>(
                    false,
                ),
                Err(e) => model_scroll_result(old(self)@, c as int, rc) == Err::<bool, i32>(e),
            },
            final(self)@ == if r is Ok {
                model_cursor_fetched(
                    old(self)@,
                    c as int,
                    model_scroll_pos(old(self)@, c as int, offset as int) as usize,
                    rc == MIMER_SUCCESS,
                )
            } else {
                old(self)@
            },
    {
        proof {
            assert(self@.cursor_ok(c as int));
        }
        let j = self.cursors[c].statement;
        if !self.statements[j].live {
            return Err(ERR_STATEMENT_DROPPED);
        }
        proof {
            assert(self@.stmt_in_range(j as int));
        }
        let sid = self.statements[j].session;
        if !self.sessions[sid].live {
            return Err(ERR_CONNECTION_DROPPED);
        }
        if matches!(self.cursors[c].mode, CursorMode::Forward) {
            return Err(MIMER_SEQUENCE_ERROR);
        }
        if rc != MIMER_SUCCESS && rc != MIMER_NO_DATA {
            return Err(rc);
        }
        let option = self.cursors[c].scroll_option;
        let target = scroll_target(option, offset, self.cursors[c].pos, self.cursors[c].rows);
        let on_row = rc == MIMER_SUCCESS;
        let ghost m0 = self@;
        let slot = cursor_slot_mut(&mut self.cursors, c);
        slot.pos = target;
        slot.has_row = on_row;
        proof {
            let m1 = model_cursor_fetched(m0, c as int, target, on_row);
            assert(self@.cursors =~= m1.cursors);
            assert(self@ =~~= m1);
            lemma_cursor_update_wf(m0, c as int, m1.cursors[c as int]);
        }
        if on_row {
            Ok(Some(Row { statement: j }))
        } else {
            Ok(None)
        }
    }

    /// Moves the cursor towards the next row and classifies the status the
    /// native fetch returned: the iteration primitive behind row fetching.
    /// A forward-only cursor fetches plainly, a scrollable one scrolls to
    /// the next row; success caches a row, the no-data status clears the
    /// cached row, any other status is the error with the cursor state
    /// untouched. A healthy server answers with success exactly while rows
    /// remain, then with no-data on the advance that runs off the end and
    /// on every advance after it.
    pub fn advance(&mut self, c: usize, rc: i32) -> (r: Result<bool, i32>)
        requires
            old(self)@.wf(),
            c < old(self)@.cursors.len(),
            old(self)@.cursors[c as int].open,
        ensures
            final(self)@.wf(),
            r == model_advance_result(old(self)@, c as int, rc),
            final(self)@ == if r is Ok {
                model_cursor_fetched(
                    old(self)@,
                    c as int,
                    model_advance_pos(old(self)@, c as int) as usize,
                    rc == MIMER_SUCCESS,
                )
            } else {
                old(self)@
            },
    {
        proof {
            assert(self@.cursor_ok(c as int));
        }
        let j = self.cursors[c].statement;
        if !self.statements[j].live {
            return Err(ERR_STATEMENT_DROPPED);
        }
        proof {
            assert(self@.stmt_in_range(j as int));
        }
        let sid = self.statements[j].session;
        if !self.sessions[sid].live {
            return Err(ERR_CONNECTION_DROPPED);
        }
        if rc != MIMER_SUCCESS && rc != MIMER_NO_DATA {
            return Err(rc);
        }
        let target = scroll_target(
            ScrollOption::NEXT,
            0,
            self.cursors[c].pos,
            self.cursors[c].rows,
        );
        let on_row = rc == MIMER_SUCCESS;
        let ghost m0 = self@;
        let slot = cursor_slot_mut(&mut self.cursors, c);
        slot.pos = target;
        slot.has_row = on_row;
        proof {
            let m1 = model_cursor_fetched(m0, c as int, target, on_row);
            assert(self@.cursors =~= m1.cursors);
            assert(self@ =~~= m1);
            lemma_cursor_update_wf(m0, c as int, m1.cursors[c as int]);
        }
        Ok(on_row)
    }

    /// Moves the cursor towards the next row and returns the row the native
    /// fetch produced, or nothing once it reports the end of the result set.
    pub fn next_row(&mut self, c: usize, rc: i32) -> (r: Result<Option<Row>, i32>)
        requires
            old(self)@.wf(),
            c < old(self)@.cursors.len(),
            old(self)@.cursors[c as int].open,
        ensures
            final(self)@.wf(),
            match r {
                Ok(Some(row)) => model_advance_result(old(self)@, c as int, rc) == Ok::<
                    bool,
                    i32,
                >(true) && row.statement == old(self)@.cursors[c as int].statement,
                Ok(None) => model_advance_result(old(self)@, c as int, rc) == Ok::<bool, i32>(
                    false,
                ),
                Err(e) => model_advance_result(old(self)@, c as int, rc) == Err::<bool, i32>(e),
            },
            final(self)@ == if r is Ok {
                model_cursor_fetched(
                    old(self)@,
                    c as int,
                    model_advance_pos(old(self)@, c as int) as usize,
                    rc == MIMER_SUCCESS,
                )
            } else {
                old(self)@
            },
    {
        let j = self.cursors[c].statement;
        match self.advance(c, rc) {
            Ok(true) => Ok(Some(Row { statement: j })),
            Ok(false) => Ok(None),
            Err(e) => Err(e),
        }
    }

    /// The row at the cursor's current position, if the position holds one.
    pub fn cursor_get(&self, c: usize) -> (r: Option<Row>)
        requires
            self@.wf(),
            c < self@.cursors.len(),
        ensures
            match r {
                Some(row) => self@.cursors[c as int].has_row && row.statement == self@.cursors[
                    c as int].statement,
                None => !self@.cursors[c as int].has_row,
            },
    {
        if self.cursors[c].has_row {
            Some(Row { statement: self.cursors[c].statement })
        } else {
            None
        }
    }

    /// The cursor's mode.
    pub fn get_mode(&self, c: usize) -> (r: CursorMode)
        requires
            self@.wf(),
            c < self@.cursors.len(),
        ensures
            r == self@.cursors[c as int].mode,
    {
        self.cursors[c].mode
    }

    /// Whether the cursor's mode matches a given one.
    pub fn check_is_mode(&self, c: usize, mode: CursorMode) -> (r: bool)
        requires
            self@.wf(),
            c < self@.cursors.len(),
        ensures
            r == (self@.cursors[c as int].mode == mode),
    {
        self.cursors[c].mode == mode
    }

    /// The current row position, as the native layer counts it: zero before
    /// the first row, the row number on a row, one past the count after the
    /// last row.
    pub fn current_row(&self, c: usize) -> (r: Result<i32, i32>)
        requires
            self@.wf(),
            c < self@.cursors.len(),
        ensures
            r == (if model_cursor_gate(self@, c as int) is Err {
                Err::<i32, i32>(model_cursor_gate(self@, c as int)->Err_0)
            } else {
                Ok::<i32, i32>(self@.cursors[c as int].pos as i32)
            }),
    {
        proof {
            assert(self@.cursor_ok(c as int));
        }
        let j = self.cursors[c].statement;
        if !self.statements[j].live {
            return Err(ERR_STATEMENT_DROPPED);
        }
        proof {
            assert(self@.stmt_in_range(j as int));
        }
        let sid = self.statements[j].session;
        if !self.sessions[sid].live {
            return Err(ERR_CONNECTION_DROPPED);
        }
        Ok(self.cursors[c].pos as i32)
    }

    /// The maximum number of bytes one row of the result set needs, as the
    /// native row-size query reported it: a negative status is the error.
    pub fn get_row_size(&self, c: usize, rc: i32) -> (r: Result<i32, i32>)
        requires
            self@.wf(),
            c < self@.cursors.len(),
        ensures
            r == (if model_cursor_gate(self@, c as int) is Err {
                Err::<i32, i32>(model_cursor_gate(self@, c as int)->Err_0)
            } else if rc < 0 {
                Err::<i32, i32>(rc)
            } else {
                Ok::<i32, i32>(rc)
            }),
    {
        proof {
            assert(self@.cursor_ok(c as int));
        }
        let j = self.cursors[c].statement;
        if !self.statements[j].live {
            return Err(ERR_STATEMENT_DROPPED);
        }
        proof {
            assert(self@.stmt_in_range(j as int));
        }
        let sid = self.statements[j].session;
        if !self.sessions[sid].live {
            return Err(ERR_CONNECTION_DROPPED);
        }
        if rc < MIMER_SUCCESS {
            return Err(rc);
        }
        Ok(rc)
    }

    /// Closes the cursor. A parent statement or session already gone is
    /// reported but benign — the native cursor died with it; any other
    /// negative status from the native close is unrecoverable and the
    /// embedding must abort on it, as on statement and session teardown
    /// failures. The native close never returns a positive status. The
    /// cursor is spent either way.
    pub fn close_cursor(&mut self, c: usize, rc: i32) -> (r: Result<i32, i32>)
        requires
            old(self)@.wf(),
            c < old(self)@.cursors.len(),
            old(self)@.cursors[c as int].open,
            rc <= MIMER_SUCCESS,
        ensures
            final(self)@.wf(),
            r == (if model_cursor_gate(old(self)@, c as int) is Err {
                Err::<i32, i32>(model_cursor_gate(old(self)@, c as int)->Err_0)
            } else if rc < 0 {
                Err::<i32, i32>(rc)
            } else {
                Ok::<i32, i32>(MIMER_SUCCESS)
            }),
            final(self)@ == (DriverModel {
                sessions: old(self)@.sessions,
                statements: old(self)@.statements,
                cursors: old(self)@.cursors.update(
                    c as int,
                    CursorModel {
                        statement: old(self)@.cursors[c as int].statement,
                        open: false,
                        mode: old(self)@.cursors[c as int].mode,
                        scroll_option: old(self)@.cursors[c as int].scroll_option,
                        rows: old(self)@.cursors[c as int].rows,
                        pos: old(self)@.cursors[c as int].pos,
                        has_row: old(self)@.cursors[c as int].has_row,
                    },
                ),
            }),
    {
        proof {
            assert(self@.cursor_ok(c as int));
        }
        let ghost m0 = self@;
        let j = self.cursors[c].statement;
        proof {
            assert(self@.stmt_in_range(j as int));
        }
        let stmt_live = self.statements[j].live;
        let sid = self.statements[j].session;
        let sess_live = self.sessions[sid].live;
        let slot = cursor_slot_mut(&mut self.cursors, c);
        slot.open = false;
        proof {
            assert(self@.cursors =~= m0.cursors.update(c as int, self@.cursors[c as int]));
            lemma_cursor_update_wf(m0, c as int, self@.cursors[c as int]);
            assert(self@ =~~= (DriverModel {
                sessions: m0.sessions,
                statements: m0.statements,
                cursors: m0.cursors.update(
                    c as int,
                    CursorModel {
                        statement: m0.cursors[c as int].statement,
                        open: false,
                        mode: m0.cursors[c as int].mode,
                        scroll_option: m0.cursors[c as int].scroll_option,
                        rows: m0.cursors[c as int].rows,
                        pos: m0.cursors[c as int].pos,
                        has_row: m0.cursors[c as int].has_row,
                    },
                ),
            }));
        }
        if !stmt_live {
            return Err(ERR_STATEMENT_DROPPED);
        }
        if !sess_live {
            return Err(ERR_CONNECTION_DROPPED);
        }
        if rc < MIMER_SUCCESS {
            return Err(rc);
        }
        Ok(MIMER_SUCCESS)
    }
}

// ---------------------------------------------------------------------------
// Helpers and invariant preservation.
// ---------------------------------------------------------------------------

/// Hands out a cursor slot for in-place update.
fn cursor_slot_mut(cursors: &mut Vec<CursorSlot>, i: usize) -> (element: &mut CursorSlot)
    requires
        i < old(cursors).len(),
    ensures
        *element == old(cursors)@[i as int],
        final(cursors)@ == old(cursors)@.update(i as int, *final(element)),
{
    &mut cursors[i]
}

/// Replacing one cursor slot by one with the same statement link, the same
/// row count and an in-bounds position preserves the invariant.
proof fn lemma_cursor_update_wf(m: DriverModel, c: int, slot: CursorModel)
    requires
        m.wf(),
        0 <= c < m.cursors.len(),
        slot.statement == m.cursors[c].statement,
        slot.rows == m.cursors[c].rows,
        slot.pos <= slot.rows + 1,
    ensures
        (DriverModel {
            sessions: m.sessions,
            statements: m.statements,
            cursors: m.cursors.update(c, slot),
        }).wf(),
{
    let m1 = DriverModel {
        sessions: m.sessions,
        statements: m.statements,
        cursors: m.cursors.update(c, slot),
    };
    assert forall|x: int| 0 <= x < m1.statements.len() implies m1.stmt_in_range(x) by {
        assert(m.stmt_in_range(x));
    }
    assert forall|i: int|
        0 <= i < m1.sessions.len() && (#[trigger] m1.sessions[i]).live implies m1.registry_wf(
        i,
    ) by {
        assert(m.sessions[i].live);
        assert(m.registry_wf(i));
    }
    assert forall|x: int| 0 <= x < m1.cursors.len() implies m1.cursor_ok(x) by {
        assert(m.cursor_ok(x));
        if x != c {
            assert(m1.cursors[x] == m.cursors[x]);
        }
    }
}

// ---------------------------------------------------------------------------
// Laws.
// ---------------------------------------------------------------------------

/// Parent-drop safety for cursors: once the session under a cursor's
/// statement is closed, every cursor operation fails its liveness gate with
/// the "connection dropped" error — the statement object is still held, so
/// the statement-level gate passes, and the session-level gate catches it.
pub proof fn lemma_cursor_parent_drop_safety(m: DriverModel, sid: int, c: int)
    requires
        m.wf(),
        0 <= sid < m.sessions.len(),
        m.sessions[sid].live,
        0 <= c < m.cursors.len(),
        m.statements[m.cursors[c].statement as int].session == sid,
        m.statements[m.cursors[c].statement as int].live,
    ensures
        model_cursor_gate(crate::driver::model_close_session(m, sid), c) == Err::<(), i32>(
            ERR_CONNECTION_DROPPED,
        ),
{
    let m1 = crate::driver::model_close_session(m, sid);
    let j = m.cursors[c].statement as int;
    assert(m.cursor_ok(c));
    assert(m1.statements[j].live == m.statements[j].live);
    assert(m1.statements[j].session == m.statements[j].session);
    assert(!m1.sessions[sid].live);
}

/// End-of-result, over positions: an advance aims at a row exactly while
/// rows remain; the advance that runs off the end parks the cursor after
/// the last row, and advancing from there stays there.
pub proof fn lemma_end_of_result(pos: int, rows: int)
    requires
        0 <= rows,
        0 <= pos <= rows + 1,
    ensures
        spec_on_row(spec_scroll_target(ScrollOption::NEXT, 0, pos, rows), rows) <==> pos < rows,
        !spec_on_row(spec_scroll_target(ScrollOption::NEXT, 0, pos, rows), rows) ==> spec_scroll_target(
            ScrollOption::NEXT,
            0,
            pos,
            rows,
        ) == rows + 1,
        spec_scroll_target(ScrollOption::NEXT, 0, rows + 1, rows) == rows + 1,
{
}

/// A scroll answered with the status a healthy server is expected to give
/// yields a row exactly when the position the directive aims at holds one
/// — which is how the positioning visits of a scrollable result set follow
/// from the classification.
pub proof fn lemma_expected_scroll(m: DriverModel, c: int, offset: int)
    requires
        m.wf(),
        0 <= c < m.cursors.len(),
    ensures
        spec_classify_fetch(model_expected_scroll_status(m, c, offset)) == Ok::<bool, i32>(
            spec_on_row(model_scroll_pos(m, c, offset), m.cursors[c].rows as int),
        ),
{
}

/// End-of-result, over expected statuses: a healthy server answers an
/// advance with success exactly while rows remain; after the advance that
/// answered no-data, the expected answer to every later advance is no-data
/// again — so a forward pass through the result set sees `Ok(None)` once
/// when it runs off the end and keeps seeing `Ok(None)`, without error.
pub proof fn lemma_expected_end_of_result(m: DriverModel, c: int)
    requires
        m.wf(),
        0 <= c < m.cursors.len(),
    ensures
        (model_expected_advance_status(m, c) == MIMER_SUCCESS) <==> (m.cursors[c].pos
            < m.cursors[c].rows),
        model_expected_advance_status(m, c) == MIMER_NO_DATA ==> model_expected_advance_status(
            model_cursor_fetched(m, c, model_advance_pos(m, c) as usize, false),
            c,
        ) == MIMER_NO_DATA,
{
    assert(m.cursor_ok(c));
}

} // verus!

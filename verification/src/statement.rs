//! Statement-level operations: execute, parameter binding, batching and
//! metadata queries.
//!
//! Binding a parameter is a decision: the tagged value and the parameter's
//! declared type tag select which native setter runs and with what converted
//! arguments. That decision is the [`BindPlan`] this module computes and
//! proves; the embedding performs the chosen native call and reports its
//! status back.

use vstd::prelude::*;
use vstd::bytes::{spec_u32_to_le_bytes, u32_to_le_bytes};
use crate::codes::{MIMER_SUCCESS, ERR_CONNECTION_DROPPED, ERR_NULL_HANDLE,
    ERR_WRONG_PARAMETER_COUNT, ERR_STRING_TO_NATIVE, ERR_UTF8_FROM_NATIVE,
    ERR_INVALID_PARAMETER_TYPE, MIMER_UUID, MIMER_GIS_LATITUDE, MIMER_GIS_LONGITUDE,
    spec_is_clob_tag, is_clob_tag, spec_is_binary_tag, is_binary_tag, spec_is_blob_tag,
    is_blob_tag};
use crate::common::ParameterMode;
use crate::driver::{Driver, DriverModel, StatementModel, contains_nul, statement_slot_mut};
use crate::types::{MimerDatatype, SqlValue};

verus! {

// ---------------------------------------------------------------------------
// Bind plans.
// ---------------------------------------------------------------------------

/// The native setter call a bind decision selects, with its converted
/// arguments. Large objects carry the data to transfer; the embedding moves
/// it chunk by chunk within the native bound.
#[derive(Debug)]
pub enum BindPlan {
    /// Set the parameter to SQL NULL.
    SetNull,
    /// Set a 64-bit integer.
    SetInt64(i64),
    /// Set a 32-bit integer.
    SetInt32(i32),
    /// Set a boolean, in the native integer convention.
    SetBoolean(i32),
    /// Set a double-precision value, by its bit pattern.
    SetDouble(u64),
    /// Set a single-precision value, by its bit pattern.
    SetFloat(u32),
    /// Set a single-precision value into a spatial coordinate parameter, as
    /// its four little-endian bytes.
    SetFloatAsBinary(Vec<u8>),
    /// Set character data through the plain string setter.
    SetString(String),
    /// Open a character large object and transfer the text.
    SetClob(String),
    /// Set a universally unique identifier, as its sixteen bytes.
    SetUuid(Vec<u8>),
    /// Set plain binary data.
    SetBinary(Vec<u8>),
    /// Open a binary large object and transfer the bytes.
    SetBlob(Vec<u8>),
}

/// The model of a bind plan: text as characters, binary data as bytes.
pub enum BindPlanModel {
    SetNull,
    SetInt64(i64),
    SetInt32(i32),
    SetBoolean(i32),
    SetDouble(u64),
    SetFloat(u32),
    SetFloatAsBinary(Seq<u8>),
    SetString(Seq<char>),
    SetClob(Seq<char>),
    SetUuid(Seq<u8>),
    SetBinary(Seq<u8>),
    SetBlob(Seq<u8>),
}

impl DeepView for BindPlan {
    type V = BindPlanModel;

    open spec fn deep_view(&self) -> BindPlanModel {
        match self {
            BindPlan::SetNull => BindPlanModel::SetNull,
            BindPlan::SetInt64(v) => BindPlanModel::SetInt64(*v),
            BindPlan::SetInt32(v) => BindPlanModel::SetInt32(*v),
            BindPlan::SetBoolean(v) => BindPlanModel::SetBoolean(*v),
            BindPlan::SetDouble(v) => BindPlanModel::SetDouble(*v),
            BindPlan::SetFloat(v) => BindPlanModel::SetFloat(*v),
            BindPlan::SetFloatAsBinary(v) => BindPlanModel::SetFloatAsBinary(v@),
            BindPlan::SetString(v) => BindPlanModel::SetString(v@),
            BindPlan::SetClob(v) => BindPlanModel::SetClob(v@),
            BindPlan::SetUuid(v) => BindPlanModel::SetUuid(v@),
            BindPlan::SetBinary(v) => BindPlanModel::SetBinary(v@),
            BindPlan::SetBlob(v) => BindPlanModel::SetBlob(v@),
        }
    }
}

/// What binding one tagged value to a parameter of the given declared type
/// decides: the native setter to call, or the error rejecting the pair.
///
/// A negative declared type is itself the error that the type query
/// returned, and is passed through for the value families that consult it.
/// Character data destined for a plain string setter must be NUL-free; an
/// identifier must hold exactly sixteen bytes; binary data whose declared
/// type takes none is rejected as an invalid parameter type.
pub open spec fn spec_plan_bind(v: SqlValue, tag: i32) -> Result<BindPlanModel, i32> {
    match v {
        SqlValue::Null => Ok(BindPlanModel::SetNull),
        SqlValue::BigInt(x) => Ok(BindPlanModel::SetInt64(x)),
        SqlValue::Int(x) => Ok(BindPlanModel::SetInt32(x)),
        SqlValue::Bool(b) => Ok(
            BindPlanModel::SetBoolean(
                if b {
                    1
                } else {
                    0
                },
            ),
        ),
        SqlValue::Double(bits) => Ok(BindPlanModel::SetDouble(bits)),
        SqlValue::Real(bits) => if tag < 0 {
            Err(tag)
        } else if tag == MIMER_GIS_LATITUDE || tag == MIMER_GIS_LONGITUDE {
            Ok(BindPlanModel::SetFloatAsBinary(spec_u32_to_le_bytes(bits)))
        } else {
            Ok(BindPlanModel::SetFloat(bits))
        },
        SqlValue::Text(t) => if tag < 0 {
            Err(tag)
        } else if spec_is_clob_tag(tag) {
            Ok(BindPlanModel::SetClob(t))
        } else if t.contains('\u{0}') {
            Err(ERR_STRING_TO_NATIVE)
        } else {
            Ok(BindPlanModel::SetString(t))
        },
        SqlValue::Binary(b) => if tag < 0 {
            Err(tag)
        } else if tag == MIMER_UUID && b.len() == 16 {
            Ok(BindPlanModel::SetUuid(b))
        } else if spec_is_binary_tag(tag) {
            Ok(BindPlanModel::SetBinary(b))
        } else if spec_is_blob_tag(tag) {
            Ok(BindPlanModel::SetBlob(b))
        } else {
            Err(ERR_INVALID_PARAMETER_TYPE)
        },
    }
}

/// Decides how one tagged value binds to a parameter of the given declared
/// type.
pub fn plan_bind(value: &MimerDatatype, tag: i32) -> (r: Result<BindPlan, i32>)
    ensures
        match r {
            Ok(p) => spec_plan_bind(value.deep_view(), tag) == Ok::<BindPlanModel, i32>(
                p.deep_view(),
            ),
            Err(e) => spec_plan_bind(value.deep_view(), tag) == Err::<BindPlanModel, i32>(e),
        },
{
    match value {
        MimerDatatype::Null => Ok(BindPlan::SetNull),
        MimerDatatype::BigInt(x) => Ok(BindPlan::SetInt64(*x)),
        MimerDatatype::Int(x) => Ok(BindPlan::SetInt32(*x)),
        MimerDatatype::Bool(b) => Ok(
            BindPlan::SetBoolean(
                if *b {
                    1
                } else {
                    0
                },
            ),
        ),
        MimerDatatype::Double(bits) => Ok(BindPlan::SetDouble(*bits)),
        MimerDatatype::Real(bits) => {
            if tag < 0 {
                Err(tag)
            } else if tag == MIMER_GIS_LATITUDE || tag == MIMER_GIS_LONGITUDE {
                Ok(BindPlan::SetFloatAsBinary(u32_to_le_bytes(*bits)))
            } else {
                Ok(BindPlan::SetFloat(*bits))
            }
        },
        MimerDatatype::String(t) => {
            if tag < 0 {
                Err(tag)
            } else if is_clob_tag(tag) {
                Ok(BindPlan::SetClob(t.clone()))
            } else if contains_nul(t.as_str()) {
                Err(ERR_STRING_TO_NATIVE)
            } else {
                Ok(BindPlan::SetString(t.clone()))
            }
        },
        MimerDatatype::BinaryArray(b) => {
            if tag < 0 {
                Err(tag)
            } else if tag == MIMER_UUID && b.len() == 16 {
                let copy = vstd::slice::slice_to_vec(b.as_slice());
                proof {
                    assert(copy@ =~= b@);
                }
                Ok(BindPlan::SetUuid(copy))
            } else if is_binary_tag(tag) {
                let copy = vstd::slice::slice_to_vec(b.as_slice());
                proof {
                    assert(copy@ =~= b@);
                }
                Ok(BindPlan::SetBinary(copy))
            } else if is_blob_tag(tag) {
                let copy = vstd::slice::slice_to_vec(b.as_slice());
                proof {
                    assert(copy@ =~= b@);
                }
                Ok(BindPlan::SetBlob(copy))
            } else {
                Err(ERR_INVALID_PARAMETER_TYPE)
            }
        },
    }
}

// ---------------------------------------------------------------------------
// Binding a whole parameter list.
// ---------------------------------------------------------------------------

/// What binding a parameter list decides, one position after another: the
/// plans of all parameters, or the first rejection.
pub open spec fn spec_set_params_from(values: Seq<SqlValue>, tags: Seq<i32>, i: int) -> Result<
    Seq<BindPlanModel>,
    i32,
>
    decreases values.len() - i,
{
    if i < 0 || i >= values.len() {
        Ok(Seq::empty())
    } else {
        match spec_plan_bind(values[i], tags[i]) {
            Ok(p) => match spec_set_params_from(values, tags, i + 1) {
                Ok(rest) => Ok(seq![p] + rest),
                Err(e) => Err(e),
            },
            Err(e) => Err(e),
        }
    }
}

/// What binding a whole parameter list decides.
pub open spec fn spec_set_params(values: Seq<SqlValue>, tags: Seq<i32>) -> Result<
    Seq<BindPlanModel>,
    i32,
> {
    spec_set_params_from(values, tags, 0)
}

/// A result of plans with a prefix of plans prepended.
pub open spec fn spec_prepend_plans(
    prefix: Seq<BindPlanModel>,
    r: Result<Seq<BindPlanModel>, i32>,
) -> Result<Seq<BindPlanModel>, i32> {
    match r {
        Ok(rest) => Ok(prefix + rest),
        Err(e) => Err(e),
    }
}

/// Decides how a whole parameter list binds: the plan of each position, or
/// the first rejection. Parameters are bound positionally, starting at one.
pub fn set_params(params: &Vec<MimerDatatype>, tags: &Vec<i32>) -> (r: Result<Vec<BindPlan>, i32>)
    requires
        params@.len() == tags@.len(),
    ensures
        match r {
            Ok(plans) => spec_set_params(params.deep_view(), tags@) == Ok::<
                Seq<BindPlanModel>,
                i32,
            >(plans.deep_view()),
            Err(e) => spec_set_params(params.deep_view(), tags@) == Err::<
                Seq<BindPlanModel>,
                i32,
            >(e),
        },
{
    let ghost values = params.deep_view();
    let ghost tag_seq = tags@;
    let mut plans: Vec<BindPlan> = Vec::new();
    let n = params.len();
    let mut i: usize = 0;
    proof {
        assert(values.len() == params@.len());
    }
    while i < n
        invariant
            n == params@.len(),
            values == params.deep_view(),
            tag_seq == tags@,
            values.len() == n,
            tag_seq.len() == n,
            i <= n,
            spec_prepend_plans(plans.deep_view(), spec_set_params_from(values, tag_seq, i as int))
                == spec_set_params(values, tag_seq),
        decreases n - i,
    {
        let ghost plans_before = plans.deep_view();
        match plan_bind(&params[i], tags[i]) {
            Ok(p) => {
                proof {
                    assert(params[i as int].deep_view() == values[i as int]);
                }
                let ghost pv = p.deep_view();
                plans.push(p);
                proof {
                    assert(plans.deep_view() =~= plans_before.push(pv));
                    assert(spec_set_params_from(values, tag_seq, i as int) == spec_prepend_plans(
                        seq![pv],
                        spec_set_params_from(values, tag_seq, i as int + 1),
                    ));
                    match spec_set_params_from(values, tag_seq, i as int + 1) {
                        Ok(rest) => {
                            assert(plans_before + (seq![pv] + rest) =~= plans_before.push(pv)
                                + rest);
                        },
                        Err(e) => {},
                    }
                }
            },
            Err(e) => {
                proof {
                    assert(params[i as int].deep_view() == values[i as int]);
                }
                return Err(e);
            },
        }
        i += 1;
    }
    proof {
        assert(spec_set_params_from(values, tag_seq, n as int) == Ok::<Seq<BindPlanModel>, i32>(
            Seq::empty(),
        ));
        assert(plans.deep_view() + Seq::<BindPlanModel>::empty() =~= plans.deep_view());
    }
    Ok(plans)
}

// ---------------------------------------------------------------------------
// Statement operations on the driver.
// ---------------------------------------------------------------------------

/// A driver whose statement slot `j` carries new batch bookkeeping, all else
/// unchanged.
pub open spec fn model_with_batch(m: DriverModel, j: int, batched: usize, pending: bool) -> DriverModel {
    DriverModel {
        sessions: m.sessions,
        statements: m.statements.update(
            j,
            StatementModel {
                session: m.statements[j].session,
                live: m.statements[j].live,
                ended: m.statements[j].ended,
                null_handle: m.statements[j].null_handle,
                cursor_mode: m.statements[j].cursor_mode,
                num_params: m.statements[j].num_params,
                batched,
                pending,
            },
        ),
        cursors: m.cursors,
    }
}

/// One successful addBatch call: the previously pending row, if any, enters
/// the native batch queue, and the newly bound row becomes the pending one.
pub open spec fn model_batch_step(m: DriverModel, j: int) -> DriverModel {
    model_with_batch(m, j, m.submitted(j) as usize, true)
}

/// What a plain execute returns for each native status: the liveness gate
/// first, then the null-handle check, then the native classification, where
/// zero or positive is success carrying the native status (often an
/// affected-row count) and negative is the error.
pub open spec fn model_execute_result(m: DriverModel, j: int, rc: i32) -> Result<i32, i32> {
    if !m.parent_session_live(j) {
        Err(ERR_CONNECTION_DROPPED)
    } else if m.statements[j].null_handle {
        Err(ERR_NULL_HANDLE)
    } else if rc < 0 {
        Err(rc)
    } else {
        Ok(rc)
    }
}

/// What executing with a parameter list returns: as a plain execute, but a
/// non-empty list is first bound — a bind rejection or a negative native
/// setter status is the error, and the native execute is only reached past
/// them.
pub open spec fn model_execute_bind_result(
    m: DriverModel,
    j: int,
    values: Seq<SqlValue>,
    tags: Seq<i32>,
    bind_rc: i32,
    rc: i32,
) -> Result<i32, i32> {
    if !m.parent_session_live(j) {
        Err(ERR_CONNECTION_DROPPED)
    } else if m.statements[j].null_handle {
        Err(ERR_NULL_HANDLE)
    } else if values.len() > 0 && spec_set_params(values, tags) is Err {
        Err(spec_set_params(values, tags)->Err_0)
    } else if values.len() > 0 && bind_rc < 0 {
        Err(bind_rc)
    } else if rc < 0 {
        Err(rc)
    } else {
        Ok(rc)
    }
}

/// What an addBatch call returns. After the liveness and null-handle gates,
/// a parameter list whose length differs from the statement's declared
/// parameter count fails with the dedicated count-mismatch error, and
/// nothing reaches the native layer. Otherwise a pending previous row is
/// first committed to the native batch queue (a negative status from that
/// call is the error), then the new parameters are bound.
pub open spec fn model_add_batch_result(
    m: DriverModel,
    j: int,
    values: Seq<SqlValue>,
    tags: Seq<i32>,
    addbatch_rc: i32,
) -> Result<i32, i32> {
    if !m.parent_session_live(j) {
        Err(ERR_CONNECTION_DROPPED)
    } else if m.statements[j].null_handle {
        Err(ERR_NULL_HANDLE)
    } else if values.len() != m.statements[j].num_params {
        Err(ERR_WRONG_PARAMETER_COUNT)
    } else if m.statements[j].pending && addbatch_rc < 0 {
        Err(addbatch_rc)
    } else if spec_set_params(values, tags) is Err {
        Err(spec_set_params(values, tags)->Err_0)
    } else if m.statements[j].pending {
        Ok(addbatch_rc)
    } else {
        Ok(MIMER_SUCCESS)
    }
}

/// What a single bind decides on a live statement: the liveness gate, the
/// null-handle check, then the bind plan.
pub open spec fn model_bind_result(m: DriverModel, j: int, v: SqlValue, tag: i32) -> Result<
    BindPlanModel,
    i32,
> {
    if !m.parent_session_live(j) {
        Err(ERR_CONNECTION_DROPPED)
    } else if m.statements[j].null_handle {
        Err(ERR_NULL_HANDLE)
    } else {
        spec_plan_bind(v, tag)
    }
}

/// How an addBatch call moves the batch bookkeeping. The failing gates
/// leave the state untouched; a successful call commits the pending row, if
/// any, and makes the newly bound row the pending one; a bind rejection
/// after a committed row keeps the commit but binds nothing new.
pub open spec fn model_add_batch_state(
    m: DriverModel,
    j: int,
    values: Seq<SqlValue>,
    tags: Seq<i32>,
    addbatch_rc: i32,
) -> DriverModel {
    if !m.parent_session_live(j) || m.statements[j].null_handle || values.len()
        != m.statements[j].num_params || (m.statements[j].pending && addbatch_rc < 0) {
        m
    } else if spec_set_params(values, tags) is Err {
        model_with_batch(m, j, m.submitted(j) as usize, m.statements[j].pending)
    } else {
        model_batch_step(m, j)
    }
}

impl Driver {
    /// Whether a statement's parent session is still live; the first gate of
    /// every statement-level operation.
    fn statement_live_gate(&self, j: usize) -> (r: bool)
        requires
            self@.wf(),
            j < self@.statements.len(),
        ensures
            r == self@.parent_session_live(j as int),
    {
        proof {
            assert(self@.stmt_in_range(j as int));
        }
        let sid = self.statements[j].session;
        self.sessions[sid].live
    }

    /// Executes a prepared statement with the parameters already bound. On
    /// success the batch bookkeeping is reset: the statement returns to a
    /// fresh result state, and the rows submitted to the native execute were
    /// exactly the previously counted parameter rows.
    pub fn execute(&mut self, j: usize, rc: i32) -> (r: Result<i32, i32>)
        requires
            old(self)@.wf(),
            j < old(self)@.statements.len(),
            old(self)@.statements[j as int].live,
        ensures
            final(self)@.wf(),
            r == model_execute_result(old(self)@, j as int, rc),
            final(self)@ == if r is Ok {
                model_with_batch(old(self)@, j as int, 0, false)
            } else {
                old(self)@
            },
    {
        if !self.statement_live_gate(j) {
            return Err(ERR_CONNECTION_DROPPED);
        }
        if self.statements[j].null_handle {
            return Err(ERR_NULL_HANDLE);
        }
        if rc < MIMER_SUCCESS {
            return Err(rc);
        }
        let ghost m0 = self@;
        let slot = statement_slot_mut(&mut self.statements, j);
        slot.batched = 0;
        slot.pending = false;
        proof {
            let m1 = model_with_batch(m0, j as int, 0, false);
            assert(self@.statements =~= m1.statements);
            assert(self@ =~~= m1);
            lemma_batch_update_wf(m0, j as int, 0, false);
        }
        Ok(rc)
    }

    /// Executes a statement, first binding the given parameter values. The
    /// parameters' declared type tags come from the native type query, the
    /// summarized native setter status and the native execute status decide
    /// the rest. On success the batch bookkeeping is reset.
    pub fn execute_bind(
        &mut self,
        j: usize,
        params: &Vec<MimerDatatype>,
        param_tags: &Vec<i32>,
        bind_rc: i32,
        rc: i32,
    ) -> (r: Result<i32, i32>)
        requires
            old(self)@.wf(),
            j < old(self)@.statements.len(),
            old(self)@.statements[j as int].live,
            params@.len() == param_tags@.len(),
        ensures
            final(self)@.wf(),
            r == model_execute_bind_result(
                old(self)@,
                j as int,
                params.deep_view(),
                param_tags@,
                bind_rc,
                rc,
            ),
            final(self)@ == if r is Ok {
                model_with_batch(old(self)@, j as int, 0, false)
            } else {
                old(self)@
            },
    {
        if !self.statement_live_gate(j) {
            return Err(ERR_CONNECTION_DROPPED);
        }
        if self.statements[j].null_handle {
            return Err(ERR_NULL_HANDLE);
        }
        if params.len() > 0 {
            match set_params(params, param_tags) {
                Ok(_) => {},
                Err(e) => {
                    return Err(e);
                },
            }
            if bind_rc < MIMER_SUCCESS {
                return Err(bind_rc);
            }
        }
        if rc < MIMER_SUCCESS {
            return Err(rc);
        }
        let ghost m0 = self@;
        let slot = statement_slot_mut(&mut self.statements, j);
        slot.batched = 0;
        slot.pending = false;
        proof {
            let m1 = model_with_batch(m0, j as int, 0, false);
            assert(self@.statements =~= m1.statements);
            assert(self@ =~~= m1);
            lemma_batch_update_wf(m0, j as int, 0, false);
        }
        Ok(rc)
    }

    /// Binds the value of one parameter without executing. The parameter is
    /// identified by its position, starting at one; its declared type tag
    /// comes from the native type query. Returns the native setter call to
    /// perform.
    pub fn bind(&self, j: usize, value: &MimerDatatype, idx: i16, param_type_tag: i32) -> (r:
        Result<BindPlan, i32>)
        requires
            self@.wf(),
            j < self@.statements.len(),
            self@.statements[j as int].live,
            idx >= 1,
        ensures
            match r {
                Ok(p) => model_bind_result(self@, j as int, value.deep_view(), param_type_tag)
                    == Ok::<BindPlanModel, i32>(p.deep_view()),
                Err(e) => model_bind_result(self@, j as int, value.deep_view(), param_type_tag)
                    == Err::<BindPlanModel, i32>(e),
            },
    {
        if !self.statement_live_gate(j) {
            return Err(ERR_CONNECTION_DROPPED);
        }
        if self.statements[j].null_handle {
            return Err(ERR_NULL_HANDLE);
        }
        plan_bind(value, param_type_tag)
    }

    /// Binds one parameter row and adds it to the batch to be executed by
    /// the next execute call.
    ///
    /// The parameter list must match the statement's declared parameter
    /// count, else the dedicated count-mismatch error is returned and the
    /// native batch state is not touched. If a previous row is pending, it
    /// is first committed to the native batch queue, so that the commit call
    /// is never issued on the very last row before a final execute; then the
    /// new parameters are bound and become the pending row. Each successful
    /// call makes the count of submitted parameter rows grow by exactly one.
    pub fn add_batch(
        &mut self,
        j: usize,
        params: &Vec<MimerDatatype>,
        param_tags: &Vec<i32>,
        addbatch_rc: i32,
    ) -> (r: Result<i32, i32>)
        requires
            old(self)@.wf(),
            j < old(self)@.statements.len(),
            old(self)@.statements[j as int].live,
            params@.len() == param_tags@.len(),
            old(self)@.statements[j as int].batched < usize::MAX,
        ensures
            final(self)@.wf(),
            r == model_add_batch_result(
                old(self)@,
                j as int,
                params.deep_view(),
                param_tags@,
                addbatch_rc,
            ),
            final(self)@ == model_add_batch_state(
                old(self)@,
                j as int,
                params.deep_view(),
                param_tags@,
                addbatch_rc,
            ),
            r is Ok ==> final(self)@ == model_batch_step(old(self)@, j as int),
            r is Ok ==> final(self)@.submitted(j as int) == old(self)@.submitted(j as int) + 1,
    {
        if !self.statement_live_gate(j) {
            return Err(ERR_CONNECTION_DROPPED);
        }
        if self.statements[j].null_handle {
            return Err(ERR_NULL_HANDLE);
        }
        if params.len() != self.statements[j].num_params {
            return Err(ERR_WRONG_PARAMETER_COUNT);
        }
        let was_pending = self.statements[j].pending;
        if was_pending && addbatch_rc < MIMER_SUCCESS {
            return Err(addbatch_rc);
        }
        let ghost m0 = self@;
        let committed: usize = if was_pending {
            1
        } else {
            0
        };
        let new_batched = self.statements[j].batched + committed;
        match set_params(params, param_tags) {
            Ok(_) => {
                let slot = statement_slot_mut(&mut self.statements, j);
                slot.batched = new_batched;
                slot.pending = true;
                proof {
                    let m1 = model_with_batch(m0, j as int, new_batched, true);
                    assert(self@.statements =~= m1.statements);
                    assert(self@ =~~= m1);
                    lemma_batch_update_wf(m0, j as int, new_batched, true);
                    assert(new_batched == m0.submitted(j as int));
                }
                if was_pending {
                    Ok(addbatch_rc)
                } else {
                    Ok(MIMER_SUCCESS)
                }
            },
            Err(e) => {
                let slot = statement_slot_mut(&mut self.statements, j);
                slot.batched = new_batched;
                proof {
                    let m1 = model_with_batch(
                        m0,
                        j as int,
                        new_batched,
                        m0.statements[j as int].pending,
                    );
                    assert(self@.statements =~= m1.statements);
                    assert(self@ =~~= m1);
                    lemma_batch_update_wf(m0, j as int, new_batched, m0.statements[
                        j as int].pending);
                    assert(new_batched == m0.submitted(j as int));
                }
                Err(e)
            },
        }
    }

    /// Describes a status code against this statement, as the session-level
    /// description does; a statement whose session is gone has no live
    /// handle to ask, and the code then describes the "connection dropped"
    /// condition instead.
    pub fn get_statement_error(
        &self,
        j: usize,
        error_code: i32,
        probe: i32,
        fill: i32,
        native_code: i32,
        text: Option<String>,
    ) -> (r: crate::error::MimerError)
        requires
            self@.wf(),
            j < self@.statements.len(),
            self@.statements[j as int].live,
        ensures
            (r.error_code, r.error_message@) == crate::error::MimerError::spec_describe(
                error_code,
                if self@.parent_session_live(j as int) {
                    Ok(())
                } else {
                    Err(ERR_CONNECTION_DROPPED)
                },
                probe,
                fill,
                native_code,
                text,
            ),
    {
        let handle: Result<(), i32> = if self.statement_live_gate(j) {
            Ok(())
        } else {
            Err(ERR_CONNECTION_DROPPED)
        };
        crate::error::MimerError::describe(error_code, handle, probe, fill, native_code, text)
    }

    /// The number of parameters of a statement, captured at prepare time.
    pub fn num_params(&self, j: usize) -> (r: Result<usize, i32>)
        requires
            self@.wf(),
            j < self@.statements.len(),
            self@.statements[j as int].live,
        ensures
            r == if self@.parent_session_live(j as int) {
                Ok::<usize, i32>(self@.statements[j as int].num_params)
            } else {
                Err::<usize, i32>(ERR_CONNECTION_DROPPED)
            },
    {
        if !self.statement_live_gate(j) {
            return Err(ERR_CONNECTION_DROPPED);
        }
        Ok(self.statements[j].num_params)
    }

    /// The number of columns of a statement's result set, as the native
    /// column-count query reported it: a negative status is the error.
    pub fn column_count(&self, j: usize, rc: i32) -> (r: Result<i32, i32>)
        requires
            self@.wf(),
            j < self@.statements.len(),
            self@.statements[j as int].live,
        ensures
            r == if !self@.parent_session_live(j as int) {
                Err::<i32, i32>(ERR_CONNECTION_DROPPED)
            } else if rc < 0 {
                Err::<i32, i32>(rc)
            } else {
                Ok::<i32, i32>(rc)
            },
    {
        if !self.statement_live_gate(j) {
            return Err(ERR_CONNECTION_DROPPED);
        }
        if rc < MIMER_SUCCESS {
            return Err(rc);
        }
        Ok(rc)
    }

    /// Sets the number of rows the native layer fetches per server request;
    /// any size is handed through, and the native status is classified as
    /// the column count is.
    pub fn set_array_size(&self, j: usize, size: i32, rc: i32) -> (r: Result<i32, i32>)
        requires
            self@.wf(),
            j < self@.statements.len(),
            self@.statements[j as int].live,
        ensures
            r == if !self@.parent_session_live(j as int) {
                Err::<i32, i32>(ERR_CONNECTION_DROPPED)
            } else if rc < 0 {
                Err::<i32, i32>(rc)
            } else {
                Ok::<i32, i32>(rc)
            },
    {
        if !self.statement_live_gate(j) {
            return Err(ERR_CONNECTION_DROPPED);
        }
        if rc < MIMER_SUCCESS {
            return Err(rc);
        }
        Ok(rc)
    }

    /// The input/output mode of a parameter, decoded from the status the
    /// native mode query returned.
    pub fn get_parameter_mode(&self, j: usize, idx: i16, rc: i32) -> (r: Result<ParameterMode, i32>)
        requires
            self@.wf(),
            j < self@.statements.len(),
            self@.statements[j as int].live,
        ensures
            r == if !self@.parent_session_live(j as int) {
                Err::<ParameterMode, i32>(ERR_CONNECTION_DROPPED)
            } else {
                ParameterMode::spec_from_c_int(rc)
            },
    {
        if !self.statement_live_gate(j) {
            return Err(ERR_CONNECTION_DROPPED);
        }
        ParameterMode::from_c_int(rc)
    }

    /// The name of a parameter, read through the two-call size-then-fill
    /// protocol.
    pub fn get_parameter_name(&self, j: usize, idx: i16, probe: i32, fill_rc: i32, text: Option<
        String,
    >) -> (r: Result<String, i32>)
        requires
            self@.wf(),
            j < self@.statements.len(),
            self@.statements[j as int].live,
        ensures
            r == spec_read_name(self@, j as int, probe, fill_rc, text),
    {
        self.read_name(j, probe, fill_rc, text)
    }

    /// The name of a column, read through the two-call size-then-fill
    /// protocol.
    pub fn get_column_name(&self, j: usize, idx: i16, probe: i32, fill_rc: i32, text: Option<
        String,
    >) -> (r: Result<String, i32>)
        requires
            self@.wf(),
            j < self@.statements.len(),
            self@.statements[j as int].live,
        ensures
            r == spec_read_name(self@, j as int, probe, fill_rc, text),
    {
        self.read_name(j, probe, fill_rc, text)
    }

    /// The shared two-call buffer protocol for names: a negative size probe
    /// or fill status is the error; text the native buffer held that is not
    /// valid UTF-8 is the conversion error; otherwise the name is returned.
    fn read_name(&self, j: usize, probe: i32, fill_rc: i32, text: Option<String>) -> (r: Result<
        String,
        i32,
    >)
        requires
            self@.wf(),
            j < self@.statements.len(),
            self@.statements[j as int].live,
        ensures
            r == spec_read_name(self@, j as int, probe, fill_rc, text),
    {
        if !self.statement_live_gate(j) {
            return Err(ERR_CONNECTION_DROPPED);
        }
        if probe < MIMER_SUCCESS {
            return Err(probe);
        }
        if fill_rc < MIMER_SUCCESS {
            return Err(fill_rc);
        }
        match text {
            Some(s) => Ok(s),
            None => Err(ERR_UTF8_FROM_NATIVE),
        }
    }
}

/// What reading a name through the size-then-fill protocol yields.
pub open spec fn spec_read_name(
    m: DriverModel,
    j: int,
    probe: i32,
    fill_rc: i32,
    text: Option<String>,
) -> Result<String, i32> {
    if !m.parent_session_live(j) {
        Err(ERR_CONNECTION_DROPPED)
    } else if probe < 0 {
        Err(probe)
    } else if fill_rc < 0 {
        Err(fill_rc)
    } else {
        match text {
            Some(s) => Ok(s),
            None => Err(ERR_UTF8_FROM_NATIVE),
        }
    }
}

// ---------------------------------------------------------------------------
// Invariant preservation and batch laws.
// ---------------------------------------------------------------------------

/// Changing only the batch bookkeeping of one statement preserves the
/// registry invariant.
proof fn lemma_batch_update_wf(m: DriverModel, j: int, batched: usize, pending: bool)
    requires
        m.wf(),
        0 <= j < m.statements.len(),
    ensures
        model_with_batch(m, j, batched, pending).wf(),
{
    let m1 = model_with_batch(m, j, batched, pending);
    assert forall|x: int| 0 <= x < m1.statements.len() implies m1.stmt_in_range(x) by {
        assert(m.stmt_in_range(x));
    }
    assert forall|i: int|
        0 <= i < m1.sessions.len() && (#[trigger] m1.sessions[i]).live implies m1.registry_wf(
        i,
    ) by {
        assert(m.sessions[i].live);
        assert(m.registry_wf(i));
        assert forall|k: int|
            0 <= k < m1.sessions[i].registry.len() implies {
            let x = #[trigger] m1.sessions[i].registry[k] as int;
            &&& x < m1.statements.len()
            &&& m1.statements[x].session == i
            &&& m1.statements[x].live
            &&& !m1.statements[x].ended
        } by {
            assert(m.sessions[i].registry[k] == m1.sessions[i].registry[k]);
        }
        assert forall|x: int|
            0 <= x < m1.statements.len() && (#[trigger] m1.statements[x]).session == i
                && m1.statements[x].live implies m1.sessions[i].registry.contains(x as usize) by {
            assert(m.statements[x].session == i && m.statements[x].live);
        }
    }
    assert forall|c: int| 0 <= c < m1.cursors.len() implies m1.cursor_ok(c) by {
        assert(m.cursor_ok(c));
        assert(m1.cursors[c] == m.cursors[c]);
    }
}

/// N successive successful addBatch calls.
pub open spec fn model_batch_steps(m: DriverModel, j: int, n: nat) -> DriverModel
    decreases n,
{
    if n == 0 {
        m
    } else {
        model_batch_step(model_batch_steps(m, j, (n - 1) as nat), j)
    }
}

/// Batch semantics: adding N parameter rows, one successful addBatch call
/// each, leaves exactly N parameter rows to submit — not N + 1 and not
/// N - 1 — so the one execute that follows inserts exactly N rows. Starting
/// from a fresh statement, only N - 1 of them have passed through the native
/// batch-commit call: the last row stays pending, so that call is never
/// issued on the very last row before the final execute.
pub proof fn lemma_batch_semantics(m: DriverModel, j: int, n: nat)
    requires
        0 <= j < m.statements.len(),
        m.submitted(j) + n <= usize::MAX,
    ensures
        model_batch_steps(m, j, n).submitted(j) == m.submitted(j) + n,
        model_batch_steps(m, j, n).statements.len() == m.statements.len(),
        n > 0 ==> model_batch_steps(m, j, n).statements[j].pending,
        n > 0 ==> model_batch_steps(m, j, n).statements[j].batched == m.submitted(j) + n - 1,
    decreases n,
{
    if n == 0 {
    } else {
        lemma_batch_semantics(m, j, (n - 1) as nat);
        let prev = model_batch_steps(m, j, (n - 1) as nat);
        assert(model_batch_step(prev, j).submitted(j) == prev.submitted(j) + 1);
    }
}

} // verus!

//! Control dispatcher: builds shape-correct control calls and translates the
//! native layer's answers into typed results.
//!
//! The native control entry point is a single variadic function taking a
//! handle, an integer opcode and untyped arguments, and returning an integer
//! status. That call is foreign and unverified, so dispatching is split into
//! two verified halves around it: a *request* half that fixes exactly which
//! opcode value and which arguments are forwarded (the binding between opcode
//! and argument shape lives in the [`crate::request`] registry, not at the
//! call site, so call sites cannot mismatch the two), and a *completion* half
//! that classifies the returned status and either surfaces the output value
//! or the classified error — never a partial result on error. The unverified
//! shell that owns the foreign linkage performs the call in between.

use vstd::prelude::*;

use crate::error::{classify, OpusError};
use crate::request::{ArgShape, OpusRequest};

verus! {

/// The arguments a control call forwards to the native entry point, one
/// variant per argument shape: nothing, one scalar passed by value, or one
/// writable scalar slot for the native layer to fill.
#[derive(Clone, Copy, Debug, PartialEq, Eq, Structural)]
pub enum ControlArgs {
    Empty,
    ScalarIn(i32),
    ScalarOut,
}

/// One fully-determined control request: the operation to invoke and the
/// arguments to forward. A well-formed call carries exactly the arguments
/// the registry binds to its opcode; see [`ControlCall::wf`].
#[derive(Clone, Copy, Debug, PartialEq, Eq, Structural)]
pub struct ControlCall {
    pub request: OpusRequest,
    pub args: ControlArgs,
}

/// The shape that a given argument bundle satisfies.
pub open spec fn shape_of_args(args: ControlArgs) -> ArgShape {
    match args {
        ControlArgs::Empty => ArgShape::Niladic,
        ControlArgs::ScalarIn(_) => ArgShape::ScalarIn,
        ControlArgs::ScalarOut => ArgShape::ScalarOut,
    }
}

impl ControlCall {
    /// A call is well formed when its arguments have exactly the shape the
    /// opcode registry demands for its operation.
    pub open spec fn wf(&self) -> bool {
        shape_of_args(self.args) == self.request.shape_spec()
    }
}

/// What a completed call with no output value means for the caller: success
/// exactly when the status classifies as `Success`, and otherwise the
/// classified kind, verbatim.
pub open spec fn unit_outcome(status: int) -> Result<(), OpusError> {
    if classify(status) == OpusError::Success {
        Ok(())
    } else {
        Err(classify(status))
    }
}

/// What a completed scalar-out call means for the caller: on success exactly
/// the value the native layer wrote into the output slot, and otherwise the
/// classified kind with no partial result.
pub open spec fn scalar_outcome(status: int, out: i32) -> Result<i32, OpusError> {
    if classify(status) == OpusError::Success {
        Ok(out)
    } else {
        Err(classify(status))
    }
}

/// Builds the control call for a niladic operation.
pub fn prepare_niladic(request: OpusRequest) -> (c: ControlCall)
    requires
        request.shape_spec() == ArgShape::Niladic,
    ensures
        c == (ControlCall { request, args: ControlArgs::Empty }),
        c.wf(),
{
    ControlCall { request, args: ControlArgs::Empty }
}

/// Builds the control call for a scalar-in operation carrying `value`.
pub fn prepare_scalar_in(request: OpusRequest, value: i32) -> (c: ControlCall)
    requires
        request.shape_spec() == ArgShape::ScalarIn,
    ensures
        c == (ControlCall { request, args: ControlArgs::ScalarIn(value) }),
        c.wf(),
{
    ControlCall { request, args: ControlArgs::ScalarIn(value) }
}

/// Builds the control call for a scalar-out operation.
pub fn prepare_scalar_out(request: OpusRequest) -> (c: ControlCall)
    requires
        request.shape_spec() == ArgShape::ScalarOut,
    ensures
        c == (ControlCall { request, args: ControlArgs::ScalarOut }),
        c.wf(),
{
    ControlCall { request, args: ControlArgs::ScalarOut }
}

/// Completes a call that yields no output value (niladic or scalar-in):
/// classifies the returned status and reports success or the classified
/// error, exactly as [`unit_outcome`] says.
pub fn complete_unit(status: i32) -> (r: Result<(), OpusError>)
    ensures
        r == unit_outcome(status as int),
{
    let kind = OpusError::new(status);
    match kind {
        OpusError::Success => Ok(()),
        _ => Err(kind),
    }
}

/// Completes a scalar-out call: on a successful status returns the value the
/// native layer wrote into the output slot, otherwise the classified error
/// and no partial result, exactly as [`scalar_outcome`] says.
pub fn complete_scalar_out(status: i32, out: i32) -> (r: Result<i32, OpusError>)
    ensures
        r == scalar_outcome(status as int, out),
{
    let kind = OpusError::new(status);
    match kind {
        OpusError::Success => Ok(out),
        _ => Err(kind),
    }
}

/// Every native status surfaces through the dispatcher exactly as its
/// classified kind: a non-success status is reported verbatim as that kind
/// (never a partial result), and a success status is never reported as an
/// error — for a scalar-out call it yields exactly the value the native
/// layer wrote.
pub proof fn lemma_outcome_reports_classification(status: int, out: i32)
    ensures
        classify(status) != OpusError::Success ==> unit_outcome(status) == Err::<(), OpusError>(
            classify(status),
        ),
        classify(status) != OpusError::Success ==> scalar_outcome(status, out) == Err::<
            i32,
            OpusError,
        >(classify(status)),
        classify(status) == OpusError::Success ==> unit_outcome(status) == Ok::<(), OpusError>(()),
        classify(status) == OpusError::Success ==> scalar_outcome(status, out) == Ok::<
            i32,
            OpusError,
        >(out),
        status != 0 ==> unit_outcome(status) == Err::<(), OpusError>(classify(status)),
{
}

/// The dispatcher is deterministic: equal native answers complete to equal
/// results, whatever happened before. In particular, repeated queries with no
/// intervening update complete to the same value whenever the native layer
/// answers them alike.
pub proof fn lemma_completion_deterministic(
    status1: int,
    out1: i32,
    status2: int,
    out2: i32,
)
    requires
        status1 == status2,
        out1 == out2,
    ensures
        scalar_outcome(status1, out1) == scalar_outcome(status2, out2),
        unit_outcome(status1) == unit_outcome(status2),
{
}

} // verus!

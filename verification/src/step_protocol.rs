use vstd::prelude::*;

use crate::error::{BuddyError, BuddyErrorView, BuddyResult};
use crate::timeline::MoveTarget;
use crate::json_text::{parse_json_text, spec_parse_json};
use crate::json::{
    first_unknown_member, json_view, object_member, spec_first_unknown_member, spec_member,
    JsonValue, JsonView,
};
use crate::text::{
    concat3, concat_str, int_text, message_id_for, opt_string_view, spec_int_text, spec_message_id,
    str_eq,
};

verus! {

/// Whether a running sidecar step may be interrupted.
#[derive(Debug, Clone, Copy, PartialEq, Eq)]
pub enum SidecarInterruptPolicy {
    FinishStep,
    Interruptible,
}

impl SidecarInterruptPolicy {
    pub open spec fn spec_accepts_interrupt(self) -> bool {
        self == SidecarInterruptPolicy::Interruptible
    }

    /// True when the step may be interrupted before it finishes.
    pub fn accepts_interrupt(self) -> (r: bool)
        ensures
            r == self.spec_accepts_interrupt(),
    {
        match self {
            SidecarInterruptPolicy::FinishStep => false,
            SidecarInterruptPolicy::Interruptible => true,
        }
    }
}

/// What the sidecar shows once a play action finishes.
#[derive(Debug, Clone, Copy, PartialEq, Eq)]
pub enum SidecarPlayActionCompletionBehavior {
    RestoreIdle,
    HoldLastFrame,
}

impl SidecarPlayActionCompletionBehavior {
    /// True for the default behavior, which is left out of serialized steps.
    pub fn is_restore_idle(&self) -> (r: bool)
        ensures
            r == (*self == SidecarPlayActionCompletionBehavior::RestoreIdle),
    {
        match self {
            SidecarPlayActionCompletionBehavior::RestoreIdle => true,
            SidecarPlayActionCompletionBehavior::HoldLastFrame => false,
        }
    }
}


/// The only sidecar protocol version this runtime speaks.
pub const SIDECAR_PROTOCOL_VERSION: u64 = 1;

/// Why the sidecar failed a step or refused a message.
#[derive(Debug, Clone, Copy, PartialEq, Eq)]
pub enum SidecarStepErrorCode {
    InvalidStepProtocol,
    UnsupportedStepCapability,
    MotionTimeout,
    InterruptRejected,
    TargetUnavailable,
}

impl SidecarStepErrorCode {
    pub open spec fn spec_as_str(self) -> Seq<char> {
        match self {
            SidecarStepErrorCode::InvalidStepProtocol => "invalidStepProtocol"@,
            SidecarStepErrorCode::UnsupportedStepCapability => "unsupportedStepCapability"@,
            SidecarStepErrorCode::MotionTimeout => "motionTimeout"@,
            SidecarStepErrorCode::InterruptRejected => "interruptRejected"@,
            SidecarStepErrorCode::TargetUnavailable => "targetUnavailable"@,
        }
    }

    /// The wire name of the code.
    pub fn as_str(self) -> (r: &'static str)
        ensures
            r@ == self.spec_as_str(),
    {
        match self {
            SidecarStepErrorCode::InvalidStepProtocol => "invalidStepProtocol",
            SidecarStepErrorCode::UnsupportedStepCapability => "unsupportedStepCapability",
            SidecarStepErrorCode::MotionTimeout => "motionTimeout",
            SidecarStepErrorCode::InterruptRejected => "interruptRejected",
            SidecarStepErrorCode::TargetUnavailable => "targetUnavailable",
        }
    }

    pub open spec fn spec_from_wire(s: Seq<char>) -> Option<SidecarStepErrorCode> {
        if s == "invalidStepProtocol"@ {
            Some(SidecarStepErrorCode::InvalidStepProtocol)
        } else if s == "unsupportedStepCapability"@ {
            Some(SidecarStepErrorCode::UnsupportedStepCapability)
        } else if s == "motionTimeout"@ {
            Some(SidecarStepErrorCode::MotionTimeout)
        } else if s == "interruptRejected"@ {
            Some(SidecarStepErrorCode::InterruptRejected)
        } else if s == "targetUnavailable"@ {
            Some(SidecarStepErrorCode::TargetUnavailable)
        } else {
            None
        }
    }

    /// The code with this wire name.
    pub fn from_wire(s: &str) -> (r: Option<SidecarStepErrorCode>)
        ensures
            r == Self::spec_from_wire(s@),
    {
        if str_eq(s, "invalidStepProtocol") {
            Some(SidecarStepErrorCode::InvalidStepProtocol)
        } else if str_eq(s, "unsupportedStepCapability") {
            Some(SidecarStepErrorCode::UnsupportedStepCapability)
        } else if str_eq(s, "motionTimeout") {
            Some(SidecarStepErrorCode::MotionTimeout)
        } else if str_eq(s, "interruptRejected") {
            Some(SidecarStepErrorCode::InterruptRejected)
        } else if str_eq(s, "targetUnavailable") {
            Some(SidecarStepErrorCode::TargetUnavailable)
        } else {
            None
        }
    }
}

/// Why a step was interrupted.
#[derive(Debug, Clone, Copy, PartialEq, Eq)]
pub enum SidecarInterruptReasonCode {
    AdmissionPreemptedByHigherPriorityPlan,
}

impl SidecarInterruptReasonCode {
    pub open spec fn spec_as_str(self) -> Seq<char> {
        match self {
            SidecarInterruptReasonCode::AdmissionPreemptedByHigherPriorityPlan => {
                "admission.preemptedByHigherPriorityPlan"@
            },
        }
    }

    /// The wire name of the reason.
    pub fn as_str(self) -> (r: &'static str)
        ensures
            r@ == self.spec_as_str(),
    {
        match self {
            SidecarInterruptReasonCode::AdmissionPreemptedByHigherPriorityPlan => {
                "admission.preemptedByHigherPriorityPlan"
            },
        }
    }

    pub open spec fn spec_from_wire(s: Seq<char>) -> Option<SidecarInterruptReasonCode> {
        if s == "admission.preemptedByHigherPriorityPlan"@ {
            Some(SidecarInterruptReasonCode::AdmissionPreemptedByHigherPriorityPlan)
        } else {
            None
        }
    }

    /// The reason with this wire name.
    pub fn from_wire(s: &str) -> (r: Option<SidecarInterruptReasonCode>)
        ensures
            r == Self::spec_from_wire(s@),
    {
        if str_eq(s, "admission.preemptedByHigherPriorityPlan") {
            Some(SidecarInterruptReasonCode::AdmissionPreemptedByHigherPriorityPlan)
        } else {
            None
        }
    }
}

/// The sidecar finished a step.
#[derive(Debug, Clone, PartialEq, Eq)]
pub struct SidecarStepCompletedResponse {
    pub protocol_version: u64,
    pub correlation_id: Option<String>,
    pub step_id: String,
    pub elapsed_ms: u64,
}

/// The sidecar failed a step.
#[derive(Debug, Clone, PartialEq, Eq)]
pub struct SidecarStepFailedResponse {
    pub protocol_version: u64,
    pub correlation_id: Option<String>,
    pub step_id: String,
    pub code: SidecarStepErrorCode,
    pub message: String,
    pub elapsed_ms: Option<u64>,
}

/// The sidecar interrupted a step.
#[derive(Debug, Clone, PartialEq, Eq)]
pub struct SidecarStepInterruptedResponse {
    pub protocol_version: u64,
    pub correlation_id: Option<String>,
    pub step_id: String,
    pub reason_code: SidecarInterruptReasonCode,
    pub elapsed_ms: Option<u64>,
}

/// The sidecar refused a message.
#[derive(Debug, Clone, PartialEq, Eq)]
pub struct SidecarProtocolErrorResponse {
    pub protocol_version: u64,
    pub correlation_id: Option<String>,
    pub step_id: Option<String>,
    pub code: SidecarStepErrorCode,
    pub message: String,
}

/// The sidecar's answer to a step.
#[derive(Debug, Clone, PartialEq, Eq)]
pub enum SidecarStepResponse {
    StepCompleted(SidecarStepCompletedResponse),
    StepFailed(SidecarStepFailedResponse),
    StepInterrupted(SidecarStepInterruptedResponse),
    ProtocolError(SidecarProtocolErrorResponse),
}

/// Where the pet stands on the screen.
#[derive(Debug, Clone, Copy, PartialEq, Eq)]
pub struct SidecarPosition {
    pub x: i32,
    pub y: i32,
}

/// The sidecar's answer to a state query.
#[derive(Debug, Clone, PartialEq, Eq)]
pub struct SidecarStateSnapshotResponse {
    pub protocol_version: u64,
    pub correlation_id: Option<String>,
    pub request_id: String,
    pub position: SidecarPosition,
}

pub enum StepResponseView {
    StepCompleted { correlation_id: Option<Seq<char>>, step_id: Seq<char>, elapsed_ms: u64 },
    StepFailed {
        correlation_id: Option<Seq<char>>,
        step_id: Seq<char>,
        code: SidecarStepErrorCode,
        message: Seq<char>,
        elapsed_ms: Option<u64>,
    },
    StepInterrupted {
        correlation_id: Option<Seq<char>>,
        step_id: Seq<char>,
        reason_code: SidecarInterruptReasonCode,
        elapsed_ms: Option<u64>,
    },
    ProtocolError {
        correlation_id: Option<Seq<char>>,
        step_id: Option<Seq<char>>,
        code: SidecarStepErrorCode,
        message: Seq<char>,
    },
}

/// The content of a response; every response carries protocol version 1.
pub open spec fn step_response_view(r: SidecarStepResponse) -> Option<StepResponseView> {
    match r {
        SidecarStepResponse::StepCompleted(c) => if c.protocol_version == 1 {
            Some(StepResponseView::StepCompleted {
                correlation_id: opt_string_view(c.correlation_id),
                step_id: c.step_id@,
                elapsed_ms: c.elapsed_ms,
            })
        } else {
            None
        },
        SidecarStepResponse::StepFailed(c) => if c.protocol_version == 1 {
            Some(StepResponseView::StepFailed {
                correlation_id: opt_string_view(c.correlation_id),
                step_id: c.step_id@,
                code: c.code,
                message: c.message@,
                elapsed_ms: c.elapsed_ms,
            })
        } else {
            None
        },
        SidecarStepResponse::StepInterrupted(c) => if c.protocol_version == 1 {
            Some(StepResponseView::StepInterrupted {
                correlation_id: opt_string_view(c.correlation_id),
                step_id: c.step_id@,
                reason_code: c.reason_code,
                elapsed_ms: c.elapsed_ms,
            })
        } else {
            None
        },
        SidecarStepResponse::ProtocolError(c) => if c.protocol_version == 1 {
            Some(StepResponseView::ProtocolError {
                correlation_id: opt_string_view(c.correlation_id),
                step_id: opt_string_view(c.step_id),
                code: c.code,
                message: c.message@,
            })
        } else {
            None
        },
    }
}

pub struct StateSnapshotView {
    pub correlation_id: Option<Seq<char>>,
    pub request_id: Seq<char>,
    pub position: SidecarPosition,
}

pub open spec fn state_snapshot_view(r: SidecarStateSnapshotResponse) -> Option<StateSnapshotView> {
    if r.protocol_version == 1 {
        Some(StateSnapshotView {
            correlation_id: opt_string_view(r.correlation_id),
            request_id: r.request_id@,
            position: r.position,
        })
    } else {
        None
    }
}

fn some_message_id(id: &str) -> (r: Option<String>)
    ensures
        opt_string_view(r) == Some(spec_message_id(id@)),
{
    Some(message_id_for(id))
}

/// A completed-step response, as the sidecar would send it.
pub fn step_completed_response(step_id: &str, elapsed_ms: u64) -> (r: SidecarStepCompletedResponse)
    ensures
        step_response_view(SidecarStepResponse::StepCompleted(r)) == Some(
            StepResponseView::StepCompleted {
                correlation_id: Some(spec_message_id(step_id@)),
                step_id: step_id@,
                elapsed_ms,
            },
        ),
{
    SidecarStepCompletedResponse {
        protocol_version: SIDECAR_PROTOCOL_VERSION,
        correlation_id: some_message_id(step_id),
        step_id: step_id.to_owned(),
        elapsed_ms,
    }
}

/// A failed-step response for a motion that did not settle in time.
pub fn motion_timeout_step_failed_response(step_id: &str, elapsed_ms: Option<u64>) -> (r:
    SidecarStepFailedResponse)
    ensures
        step_response_view(SidecarStepResponse::StepFailed(r)) == Some(
            StepResponseView::StepFailed {
                correlation_id: Some(spec_message_id(step_id@)),
                step_id: step_id@,
                code: SidecarStepErrorCode::MotionTimeout,
                message: "native pet motion did not settle before timeout"@,
                elapsed_ms,
            },
        ),
{
    SidecarStepFailedResponse {
        protocol_version: SIDECAR_PROTOCOL_VERSION,
        correlation_id: some_message_id(step_id),
        step_id: step_id.to_owned(),
        code: SidecarStepErrorCode::MotionTimeout,
        message: "native pet motion did not settle before timeout".to_owned(),
        elapsed_ms,
    }
}

/// An interrupted-step response.
pub fn step_interrupted_response(
    step_id: &str,
    reason_code: SidecarInterruptReasonCode,
    elapsed_ms: Option<u64>,
) -> (r: SidecarStepInterruptedResponse)
    ensures
        step_response_view(SidecarStepResponse::StepInterrupted(r)) == Some(
            StepResponseView::StepInterrupted {
                correlation_id: Some(spec_message_id(step_id@)),
                step_id: step_id@,
                reason_code,
                elapsed_ms,
            },
        ),
{
    SidecarStepInterruptedResponse {
        protocol_version: SIDECAR_PROTOCOL_VERSION,
        correlation_id: some_message_id(step_id),
        step_id: step_id.to_owned(),
        reason_code,
        elapsed_ms,
    }
}

pub open spec fn spec_opt_message_id(step_id: Option<Seq<char>>) -> Option<Seq<char>> {
    match step_id {
        Some(id) => Some(spec_message_id(id)),
        None => None,
    }
}

/// A protocol-error response; it answers the step's message when there is a step.
pub fn protocol_error_response(step_id: Option<&str>, code: SidecarStepErrorCode, message: &str) -> (r:
    SidecarProtocolErrorResponse)
    ensures
        step_response_view(SidecarStepResponse::ProtocolError(r)) == Some(
            StepResponseView::ProtocolError {
                correlation_id: spec_opt_message_id(crate::text::opt_str_view(step_id)),
                step_id: crate::text::opt_str_view(step_id),
                code,
                message: message@,
            },
        ),
{
    let (correlation_id, step) = match step_id {
        Some(id) => (some_message_id(id), Some(id.to_owned())),
        None => (None, None),
    };
    SidecarProtocolErrorResponse {
        protocol_version: SIDECAR_PROTOCOL_VERSION,
        correlation_id,
        step_id: step,
        code,
        message: message.to_owned(),
    }
}

/// A protocol-error response with an explicit code.
pub fn protocol_error_response_with_code(
    step_id: Option<&str>,
    code: SidecarStepErrorCode,
    message: &str,
) -> (r: SidecarProtocolErrorResponse)
    ensures
        step_response_view(SidecarStepResponse::ProtocolError(r)) == Some(
            StepResponseView::ProtocolError {
                correlation_id: spec_opt_message_id(crate::text::opt_str_view(step_id)),
                step_id: crate::text::opt_str_view(step_id),
                code,
                message: message@,
            },
        ),
{
    protocol_error_response(step_id, code, message)
}

/// A state snapshot, as the sidecar would send it.
pub fn state_snapshot_response(request_id: &str, x: i32, y: i32) -> (r: SidecarStateSnapshotResponse)
    ensures
        state_snapshot_view(r) == Some(
            StateSnapshotView {
                correlation_id: Some(spec_message_id(request_id@)),
                request_id: request_id@,
                position: SidecarPosition { x, y },
            },
        ),
{
    SidecarStateSnapshotResponse {
        protocol_version: SIDECAR_PROTOCOL_VERSION,
        correlation_id: some_message_id(request_id),
        request_id: request_id.to_owned(),
        position: SidecarPosition { x, y },
    }
}


// ---------------------------------------------------------------------------
// Reading sidecar messages.
// ---------------------------------------------------------------------------

pub type Members = Seq<(Seq<char>, JsonView)>;

pub open spec fn spec_field_error(message_type: Seq<char>, key: Seq<char>) -> BuddyErrorView {
    BuddyErrorView::Validation("invalid sidecar "@ + message_type + " field: "@ + key)
}

pub open spec fn spec_string_field(m: Members, t: Seq<char>, key: Seq<char>) -> Result<Seq<char>, BuddyErrorView> {
    match spec_member(m, key) {
        Some(JsonView::Str(s)) => Ok(s),
        _ => Err(spec_field_error(t, key)),
    }
}

pub open spec fn spec_opt_string_field(m: Members, t: Seq<char>, key: Seq<char>) -> Result<
    Option<Seq<char>>,
    BuddyErrorView,
> {
    match spec_member(m, key) {
        None => Ok(None),
        Some(JsonView::Null) => Ok(None),
        Some(JsonView::Str(s)) => Ok(Some(s)),
        _ => Err(spec_field_error(t, key)),
    }
}

pub open spec fn spec_u64_field(m: Members, t: Seq<char>, key: Seq<char>) -> Result<u64, BuddyErrorView> {
    match spec_member(m, key) {
        Some(JsonView::Number(Some(n))) => if 0 <= n <= u64::MAX {
            Ok(n as u64)
        } else {
            Err(spec_field_error(t, key))
        },
        _ => Err(spec_field_error(t, key)),
    }
}

pub open spec fn spec_opt_u64_field(m: Members, t: Seq<char>, key: Seq<char>) -> Result<Option<u64>, BuddyErrorView> {
    match spec_member(m, key) {
        None => Ok(None),
        Some(JsonView::Null) => Ok(None),
        Some(JsonView::Number(Some(n))) => if 0 <= n <= u64::MAX {
            Ok(Some(n as u64))
        } else {
            Err(spec_field_error(t, key))
        },
        _ => Err(spec_field_error(t, key)),
    }
}

pub open spec fn spec_error_code_field(m: Members, t: Seq<char>) -> Result<SidecarStepErrorCode, BuddyErrorView> {
    match spec_string_field(m, t, "code"@) {
        Err(e) => Err(e),
        Ok(s) => match SidecarStepErrorCode::spec_from_wire(s) {
            Some(c) => Ok(c),
            None => Err(BuddyErrorView::Validation("unsupported sidecar step error code: "@ + s)),
        },
    }
}

pub open spec fn spec_reason_code_field(m: Members, t: Seq<char>) -> Result<SidecarInterruptReasonCode, BuddyErrorView> {
    match spec_string_field(m, t, "reasonCode"@) {
        Err(e) => Err(e),
        Ok(s) => match SidecarInterruptReasonCode::spec_from_wire(s) {
            Some(c) => Ok(c),
            None => Err(BuddyErrorView::Validation("unsupported sidecar interrupt reason code: "@ + s)),
        },
    }
}

/// The protocol version must be present and equal to 1.
pub open spec fn spec_check_version(m: Members) -> Result<(), BuddyErrorView> {
    match spec_member(m, "protocolVersion"@) {
        Some(JsonView::Number(Some(v))) => if v == 1 {
            Ok(())
        } else {
            Err(BuddyErrorView::Validation("unsupported sidecar protocol version: "@ + spec_int_text(v as int)))
        },
        _ => Err(BuddyErrorView::Validation("missing sidecar protocolVersion"@)),
    }
}

/// The fields each step response type may carry.
pub open spec fn spec_step_response_fields(t: Seq<char>) -> Seq<Seq<char>> {
    if t == "stepCompleted"@ {
        seq!["protocolVersion"@, "correlationId"@, "type"@, "stepId"@, "elapsedMs"@]
    } else if t == "stepFailed"@ {
        seq!["protocolVersion"@, "correlationId"@, "type"@, "stepId"@, "code"@, "message"@, "elapsedMs"@]
    } else if t == "stepInterrupted"@ {
        seq!["protocolVersion"@, "correlationId"@, "type"@, "stepId"@, "reasonCode"@, "elapsedMs"@]
    } else {
        seq!["protocolVersion"@, "correlationId"@, "type"@, "stepId"@, "code"@, "message"@]
    }
}

pub open spec fn spec_is_step_response_type(t: Seq<char>) -> bool {
    t == "stepCompleted"@ || t == "stepFailed"@ || t == "stepInterrupted"@ || t == "protocolError"@
}

/// The body of a step response of type `t`, read field by field in a fixed order.
pub open spec fn spec_parse_step_body(m: Members, t: Seq<char>) -> Result<StepResponseView, BuddyErrorView> {
    match spec_opt_string_field(m, t, "correlationId"@) {
        Err(e) => Err(e),
        Ok(correlation_id) => if t == "protocolError"@ {
            match spec_opt_string_field(m, t, "stepId"@) {
                Err(e) => Err(e),
                Ok(step_id) => match spec_error_code_field(m, t) {
                    Err(e) => Err(e),
                    Ok(code) => match spec_string_field(m, t, "message"@) {
                        Err(e) => Err(e),
                        Ok(message) => Ok(StepResponseView::ProtocolError { correlation_id, step_id, code, message }),
                    },
                },
            }
        } else {
            match spec_string_field(m, t, "stepId"@) {
                Err(e) => Err(e),
                Ok(step_id) => if t == "stepCompleted"@ {
                    match spec_u64_field(m, t, "elapsedMs"@) {
                        Err(e) => Err(e),
                        Ok(elapsed_ms) => Ok(StepResponseView::StepCompleted { correlation_id, step_id, elapsed_ms }),
                    }
                } else if t == "stepFailed"@ {
                    match spec_error_code_field(m, t) {
                        Err(e) => Err(e),
                        Ok(code) => match spec_string_field(m, t, "message"@) {
                            Err(e) => Err(e),
                            Ok(message) => match spec_opt_u64_field(m, t, "elapsedMs"@) {
                                Err(e) => Err(e),
                                Ok(elapsed_ms) => Ok(StepResponseView::StepFailed {
                                    correlation_id,
                                    step_id,
                                    code,
                                    message,
                                    elapsed_ms,
                                }),
                            },
                        },
                    }
                } else {
                    match spec_reason_code_field(m, t) {
                        Err(e) => Err(e),
                        Ok(reason_code) => match spec_opt_u64_field(m, t, "elapsedMs"@) {
                            Err(e) => Err(e),
                            Ok(elapsed_ms) => Ok(StepResponseView::StepInterrupted {
                                correlation_id,
                                step_id,
                                reason_code,
                                elapsed_ms,
                            }),
                        },
                    }
                },
            }
        },
    }
}

/// A step response read from a JSON document: version first, then type, then unknown fields,
/// then the fields of that type.
pub open spec fn spec_parse_step_response_json(j: JsonView) -> Result<StepResponseView, BuddyErrorView> {
    match j {
        JsonView::Object(m) => match spec_check_version(m) {
            Err(e) => Err(e),
            Ok(_) => match spec_member(m, "type"@) {
                Some(JsonView::Str(t)) => if !spec_is_step_response_type(t) {
                    Err(BuddyErrorView::Validation("unsupported sidecar step response type: "@ + t))
                } else {
                    match spec_first_unknown_member(m, spec_step_response_fields(t)) {
                        Some(k) => Err(BuddyErrorView::Validation("unsupported sidecar "@ + t + " field: "@ + k)),
                        None => spec_parse_step_body(m, t),
                    }
                },
                _ => Err(BuddyErrorView::Validation("missing sidecar step response type"@)),
            },
        },
        _ => Err(BuddyErrorView::Validation("sidecar step response must be a JSON object"@)),
    }
}

// Readers for single fields.

pub open spec fn string_result_view(r: BuddyResult<String>) -> Result<Seq<char>, BuddyErrorView> {
    match r {
        Ok(s) => Ok(s@),
        Err(e) => Err(e@),
    }
}

pub open spec fn opt_string_result_view(r: BuddyResult<Option<String>>) -> Result<Option<Seq<char>>, BuddyErrorView> {
    match r {
        Ok(s) => Ok(opt_string_view(s)),
        Err(e) => Err(e@),
    }
}

pub open spec fn members_of(members: Vec<(String, JsonValue)>) -> Members {
    json_view(JsonValue::Object(members))->Object_0
}

fn field_error(message_type: &str, key: &str) -> (e: BuddyError)
    ensures
        e@ == spec_field_error(message_type@, key@),
{
    let a = concat3("invalid sidecar ", message_type, " field: ");
    BuddyError::Validation(concat_str(a.as_str(), key))
}

fn string_field(members: &Vec<(String, JsonValue)>, t: &str, key: &str) -> (r: BuddyResult<String>)
    ensures
        string_result_view(r) == spec_string_field(members_of(*members), t@, key@),
{
    match object_member(members, key) {
        Some(JsonValue::Str(s)) => Ok(s.clone()),
        _ => Err(field_error(t, key)),
    }
}

fn opt_string_field(members: &Vec<(String, JsonValue)>, t: &str, key: &str) -> (r: BuddyResult<Option<String>>)
    ensures
        opt_string_result_view(r) == spec_opt_string_field(members_of(*members), t@, key@),
{
    match object_member(members, key) {
        None => Ok(None),
        Some(JsonValue::Null) => Ok(None),
        Some(JsonValue::Str(s)) => Ok(Some(s.clone())),
        _ => Err(field_error(t, key)),
    }
}

fn u64_field(members: &Vec<(String, JsonValue)>, t: &str, key: &str) -> (r: BuddyResult<u64>)
    ensures
        match spec_u64_field(members_of(*members), t@, key@) {
            Ok(v) => r == Ok::<u64, BuddyError>(v),
            Err(e) => r is Err && r->Err_0@ == e,
        },
{
    match object_member(members, key) {
        Some(JsonValue::Number(Some(n))) => if 0 <= *n && *n <= u64::MAX as i128 {
            Ok(*n as u64)
        } else {
            Err(field_error(t, key))
        },
        _ => Err(field_error(t, key)),
    }
}

fn opt_u64_field(members: &Vec<(String, JsonValue)>, t: &str, key: &str) -> (r: BuddyResult<Option<u64>>)
    ensures
        match spec_opt_u64_field(members_of(*members), t@, key@) {
            Ok(v) => r == Ok::<Option<u64>, BuddyError>(v),
            Err(e) => r is Err && r->Err_0@ == e,
        },
{
    match object_member(members, key) {
        None => Ok(None),
        Some(JsonValue::Null) => Ok(None),
        Some(JsonValue::Number(Some(n))) => if 0 <= *n && *n <= u64::MAX as i128 {
            Ok(Some(*n as u64))
        } else {
            Err(field_error(t, key))
        },
        _ => Err(field_error(t, key)),
    }
}

fn error_code_field(members: &Vec<(String, JsonValue)>, t: &str) -> (r: BuddyResult<SidecarStepErrorCode>)
    ensures
        match spec_error_code_field(members_of(*members), t@) {
            Ok(v) => r == Ok::<SidecarStepErrorCode, BuddyError>(v),
            Err(e) => r is Err && r->Err_0@ == e,
        },
{
    let s = match string_field(members, t, "code") {
        Ok(s) => s,
        Err(e) => return Err(e),
    };
    match SidecarStepErrorCode::from_wire(s.as_str()) {
        Some(c) => Ok(c),
        None => Err(BuddyError::Validation(concat_str("unsupported sidecar step error code: ", s.as_str()))),
    }
}

fn reason_code_field(members: &Vec<(String, JsonValue)>, t: &str) -> (r: BuddyResult<SidecarInterruptReasonCode>)
    ensures
        match spec_reason_code_field(members_of(*members), t@) {
            Ok(v) => r == Ok::<SidecarInterruptReasonCode, BuddyError>(v),
            Err(e) => r is Err && r->Err_0@ == e,
        },
{
    let s = match string_field(members, t, "reasonCode") {
        Ok(s) => s,
        Err(e) => return Err(e),
    };
    match SidecarInterruptReasonCode::from_wire(s.as_str()) {
        Some(c) => Ok(c),
        None => Err(BuddyError::Validation(concat_str("unsupported sidecar interrupt reason code: ", s.as_str()))),
    }
}

fn check_version(members: &Vec<(String, JsonValue)>) -> (r: BuddyResult<()>)
    ensures
        match spec_check_version(members_of(*members)) {
            Ok(_) => r is Ok,
            Err(e) => r is Err && r->Err_0@ == e,
        },
{
    match object_member(members, "protocolVersion") {
        Some(JsonValue::Number(Some(v))) => if *v == 1 {
            Ok(())
        } else {
            let text = int_text(*v);
            Err(BuddyError::Validation(concat_str("unsupported sidecar protocol version: ", text.as_str())))
        },
        _ => Err(BuddyError::Validation("missing sidecar protocolVersion".to_owned())),
    }
}

fn step_response_fields(t: &str) -> (r: Vec<&'static str>)
    ensures
        r@.map_values(|a: &str| a@) == spec_step_response_fields(t@),
{
    let r = if str_eq(t, "stepCompleted") {
        vec!["protocolVersion", "correlationId", "type", "stepId", "elapsedMs"]
    } else if str_eq(t, "stepFailed") {
        vec!["protocolVersion", "correlationId", "type", "stepId", "code", "message", "elapsedMs"]
    } else if str_eq(t, "stepInterrupted") {
        vec!["protocolVersion", "correlationId", "type", "stepId", "reasonCode", "elapsedMs"]
    } else {
        vec!["protocolVersion", "correlationId", "type", "stepId", "code", "message"]
    };
    assert(r@.map_values(|a: &str| a@) =~= spec_step_response_fields(t@));
    r
}

pub open spec fn step_result_view(r: BuddyResult<SidecarStepResponse>) -> Result<StepResponseView, BuddyErrorView> {
    match r {
        Ok(v) => match step_response_view(v) {
            Some(x) => Ok(x),
            None => Err(BuddyErrorView::Runtime(Seq::empty())),
        },
        Err(e) => Err(e@),
    }
}

fn parse_step_body(members: &Vec<(String, JsonValue)>, t: &str) -> (r: BuddyResult<SidecarStepResponse>)
    requires
        spec_is_step_response_type(t@),
    ensures
        step_result_view(r) == spec_parse_step_body(members_of(*members), t@),
        r matches Ok(v) ==> step_response_view(v) is Some,
{
    let correlation_id = match opt_string_field(members, t, "correlationId") {
        Ok(c) => c,
        Err(e) => return Err(e),
    };
    if str_eq(t, "protocolError") {
        let step_id = match opt_string_field(members, t, "stepId") {
            Ok(s) => s,
            Err(e) => return Err(e),
        };
        let code = match error_code_field(members, t) {
            Ok(c) => c,
            Err(e) => return Err(e),
        };
        let message = match string_field(members, t, "message") {
            Ok(m) => m,
            Err(e) => return Err(e),
        };
        return Ok(SidecarStepResponse::ProtocolError(SidecarProtocolErrorResponse {
            protocol_version: SIDECAR_PROTOCOL_VERSION,
            correlation_id,
            step_id,
            code,
            message,
        }));
    }
    let step_id = match string_field(members, t, "stepId") {
        Ok(s) => s,
        Err(e) => return Err(e),
    };
    if str_eq(t, "stepCompleted") {
        let elapsed_ms = match u64_field(members, t, "elapsedMs") {
            Ok(v) => v,
            Err(e) => return Err(e),
        };
        Ok(SidecarStepResponse::StepCompleted(SidecarStepCompletedResponse {
            protocol_version: SIDECAR_PROTOCOL_VERSION,
            correlation_id,
            step_id,
            elapsed_ms,
        }))
    } else if str_eq(t, "stepFailed") {
        let code = match error_code_field(members, t) {
            Ok(c) => c,
            Err(e) => return Err(e),
        };
        let message = match string_field(members, t, "message") {
            Ok(m) => m,
            Err(e) => return Err(e),
        };
        let elapsed_ms = match opt_u64_field(members, t, "elapsedMs") {
            Ok(v) => v,
            Err(e) => return Err(e),
        };
        Ok(SidecarStepResponse::StepFailed(SidecarStepFailedResponse {
            protocol_version: SIDECAR_PROTOCOL_VERSION,
            correlation_id,
            step_id,
            code,
            message,
            elapsed_ms,
        }))
    } else {
        let reason_code = match reason_code_field(members, t) {
            Ok(c) => c,
            Err(e) => return Err(e),
        };
        let elapsed_ms = match opt_u64_field(members, t, "elapsedMs") {
            Ok(v) => v,
            Err(e) => return Err(e),
        };
        Ok(SidecarStepResponse::StepInterrupted(SidecarStepInterruptedResponse {
            protocol_version: SIDECAR_PROTOCOL_VERSION,
            correlation_id,
            step_id,
            reason_code,
            elapsed_ms,
        }))
    }
}

/// Reads a step response from a JSON document: version first, then type, then unknown
/// fields, then the fields of that type.
pub fn parse_sidecar_step_response_json(json: &JsonValue) -> (r: BuddyResult<SidecarStepResponse>)
    ensures
        step_result_view(r) == spec_parse_step_response_json(json@),
        r matches Ok(v) ==> step_response_view(v) is Some,
{
    let members = match json {
        JsonValue::Object(members) => members,
        _ => return Err(BuddyError::Validation("sidecar step response must be a JSON object".to_owned())),
    };
    match check_version(members) {
        Ok(_) => {},
        Err(e) => return Err(e),
    }
    let t = match object_member(members, "type") {
        Some(JsonValue::Str(t)) => t,
        _ => return Err(BuddyError::Validation("missing sidecar step response type".to_owned())),
    };
    if !(str_eq(t.as_str(), "stepCompleted") || str_eq(t.as_str(), "stepFailed") || str_eq(t.as_str(), "stepInterrupted")
        || str_eq(t.as_str(), "protocolError")) {
        return Err(BuddyError::Validation(concat_str("unsupported sidecar step response type: ", t.as_str())));
    }
    let allowed = step_response_fields(t.as_str());
    match first_unknown_member(members, &allowed) {
        Some(k) => {
            let a = concat3("unsupported sidecar ", t.as_str(), " field: ");
            Err(BuddyError::Validation(concat_str(a.as_str(), k.as_str())))
        },
        None => parse_step_body(members, t.as_str()),
    }
}


pub open spec fn spec_i32_member(m: Members, key: Seq<char>) -> Option<i32> {
    match spec_member(m, key) {
        Some(JsonView::Number(Some(n))) => if i32::MIN <= n <= i32::MAX {
            Some(n as i32)
        } else {
            None
        },
        _ => None,
    }
}

/// The position of a state snapshot: an object with integer `x` and `y`.
pub open spec fn spec_position_field(m: Members) -> Result<SidecarPosition, BuddyErrorView> {
    match spec_member(m, "position"@) {
        Some(JsonView::Object(p)) => match (spec_i32_member(p, "x"@), spec_i32_member(p, "y"@)) {
            (Some(x), Some(y)) => Ok(SidecarPosition { x, y }),
            _ => Err(spec_field_error("stateSnapshot"@, "position"@)),
        },
        _ => Err(spec_field_error("stateSnapshot"@, "position"@)),
    }
}

/// A state snapshot read from a JSON document: version, type, unknown fields, then fields.
pub open spec fn spec_parse_state_snapshot_json(j: JsonView) -> Result<StateSnapshotView, BuddyErrorView> {
    match j {
        JsonView::Object(m) => match spec_check_version(m) {
            Err(e) => Err(e),
            Ok(_) => match spec_member(m, "type"@) {
                Some(JsonView::Str(t)) => if t != "stateSnapshot"@ {
                    Err(BuddyErrorView::Validation("unsupported sidecar state snapshot response type: "@ + t))
                } else {
                    match spec_first_unknown_member(
                        m,
                        seq!["protocolVersion"@, "correlationId"@, "type"@, "requestId"@, "position"@],
                    ) {
                        Some(k) => Err(BuddyErrorView::Validation("unsupported sidecar stateSnapshot field: "@ + k)),
                        None => match spec_opt_string_field(m, "stateSnapshot"@, "correlationId"@) {
                            Err(e) => Err(e),
                            Ok(correlation_id) => match spec_string_field(m, "stateSnapshot"@, "requestId"@) {
                                Err(e) => Err(e),
                                Ok(request_id) => match spec_position_field(m) {
                                    Err(e) => Err(e),
                                    Ok(position) => Ok(StateSnapshotView { correlation_id, request_id, position }),
                                },
                            },
                        },
                    }
                },
                _ => Err(BuddyErrorView::Validation("missing sidecar state snapshot response type"@)),
            },
        },
        _ => Err(BuddyErrorView::Validation("sidecar state snapshot response must be a JSON object"@)),
    }
}

fn i32_member(members: &Vec<(String, JsonValue)>, key: &str) -> (r: Option<i32>)
    ensures
        r == spec_i32_member(members_of(*members), key@),
{
    match object_member(members, key) {
        Some(JsonValue::Number(Some(n))) => if i32::MIN as i128 <= *n && *n <= i32::MAX as i128 {
            Some(*n as i32)
        } else {
            None
        },
        _ => None,
    }
}

fn position_field(members: &Vec<(String, JsonValue)>) -> (r: BuddyResult<SidecarPosition>)
    ensures
        match spec_position_field(members_of(*members)) {
            Ok(v) => r == Ok::<SidecarPosition, BuddyError>(v),
            Err(e) => r is Err && r->Err_0@ == e,
        },
{
    match object_member(members, "position") {
        Some(JsonValue::Object(p)) => match (i32_member(p, "x"), i32_member(p, "y")) {
            (Some(x), Some(y)) => Ok(SidecarPosition { x, y }),
            _ => Err(field_error("stateSnapshot", "position")),
        },
        _ => Err(field_error("stateSnapshot", "position")),
    }
}

pub open spec fn snapshot_result_view(r: BuddyResult<SidecarStateSnapshotResponse>) -> Result<StateSnapshotView, BuddyErrorView> {
    match r {
        Ok(v) => match state_snapshot_view(v) {
            Some(x) => Ok(x),
            None => Err(BuddyErrorView::Runtime(Seq::empty())),
        },
        Err(e) => Err(e@),
    }
}

/// Reads a state snapshot from a JSON document.
pub fn parse_sidecar_state_snapshot_json(json: &JsonValue) -> (r: BuddyResult<SidecarStateSnapshotResponse>)
    ensures
        snapshot_result_view(r) == spec_parse_state_snapshot_json(json@),
        r matches Ok(v) ==> state_snapshot_view(v) is Some,
{
    let members = match json {
        JsonValue::Object(members) => members,
        _ => return Err(BuddyError::Validation("sidecar state snapshot response must be a JSON object".to_owned())),
    };
    match check_version(members) {
        Ok(_) => {},
        Err(e) => return Err(e),
    }
    let t = match object_member(members, "type") {
        Some(JsonValue::Str(t)) => t,
        _ => return Err(BuddyError::Validation("missing sidecar state snapshot response type".to_owned())),
    };
    if !str_eq(t.as_str(), "stateSnapshot") {
        return Err(BuddyError::Validation(concat_str("unsupported sidecar state snapshot response type: ", t.as_str())));
    }
    let allowed = vec!["protocolVersion", "correlationId", "type", "requestId", "position"];
    assert(allowed@.map_values(|a: &str| a@) =~= seq!["protocolVersion"@, "correlationId"@, "type"@, "requestId"@, "position"@]);
    if let Some(k) = first_unknown_member(members, &allowed) {
        return Err(BuddyError::Validation(concat_str("unsupported sidecar stateSnapshot field: ", k.as_str())));
    }
    let correlation_id = match opt_string_field(members, "stateSnapshot", "correlationId") {
        Ok(c) => c,
        Err(e) => return Err(e),
    };
    let request_id = match string_field(members, "stateSnapshot", "requestId") {
        Ok(s) => s,
        Err(e) => return Err(e),
    };
    let position = match position_field(members) {
        Ok(p) => p,
        Err(e) => return Err(e),
    };
    Ok(SidecarStateSnapshotResponse { protocol_version: SIDECAR_PROTOCOL_VERSION, correlation_id, request_id, position })
}


/// Reads a step response from one JSON line sent by the sidecar.
pub fn parse_sidecar_step_response(line: &str) -> (r: BuddyResult<SidecarStepResponse>)
    ensures
        match spec_parse_json(line@) {
            None => r is Err && r->Err_0@ == BuddyErrorView::Validation("invalid sidecar step response JSON"@),
            Some(j) => step_result_view(r) == spec_parse_step_response_json(j),
        },
{
    match parse_json_text(line) {
        Some(json) => parse_sidecar_step_response_json(&json),
        None => Err(BuddyError::Validation("invalid sidecar step response JSON".to_owned())),
    }
}

/// Reads a state snapshot from one JSON line sent by the sidecar.
pub fn parse_sidecar_state_snapshot_response(line: &str) -> (r: BuddyResult<SidecarStateSnapshotResponse>)
    ensures
        match spec_parse_json(line@) {
            None => r is Err && r->Err_0@ == BuddyErrorView::Validation("invalid sidecar state snapshot JSON"@),
            Some(j) => snapshot_result_view(r) == spec_parse_state_snapshot_json(j),
        },
{
    match parse_json_text(line) {
        Some(json) => parse_sidecar_state_snapshot_json(&json),
        None => Err(BuddyError::Validation("invalid sidecar state snapshot JSON".to_owned())),
    }
}


// ---------------------------------------------------------------------------
// Messages to the sidecar.
// ---------------------------------------------------------------------------

/// How the sidecar plays an animation.
#[derive(Debug, Clone, Copy, PartialEq, Eq)]
pub enum ExecuteStepPlayback {
    Once { duration_ms: u64 },
    LoopForDuration { duration_ms: u64, clip_duration_ms: u64 },
}

/// The step the sidecar is asked to run.
#[derive(Debug, Clone, PartialEq, Eq)]
pub enum ExecuteStepPayload {
    PlayAction {
        animation: String,
        playback: ExecuteStepPlayback,
        interrupt_policy: SidecarInterruptPolicy,
        completion_behavior: SidecarPlayActionCompletionBehavior,
        timeout_ms: u64,
    },
    MoveTo {
        target: MoveTarget,
        after: Option<String>,
        interrupt_policy: SidecarInterruptPolicy,
        timeout_ms: u64,
    },
    MoveByPath {
        path: Vec<MoveTarget>,
        after: Option<String>,
        interrupt_policy: SidecarInterruptPolicy,
        timeout_ms: u64,
    },
}

pub enum PayloadView {
    PlayAction {
        animation: Seq<char>,
        playback: ExecuteStepPlayback,
        interrupt_policy: SidecarInterruptPolicy,
        completion_behavior: SidecarPlayActionCompletionBehavior,
        timeout_ms: u64,
    },
    MoveTo { target: MoveTarget, after: Option<Seq<char>>, interrupt_policy: SidecarInterruptPolicy, timeout_ms: u64 },
    MoveByPath {
        path: Seq<MoveTarget>,
        after: Option<Seq<char>>,
        interrupt_policy: SidecarInterruptPolicy,
        timeout_ms: u64,
    },
}

impl View for ExecuteStepPayload {
    type V = PayloadView;

    open spec fn view(&self) -> PayloadView {
        match self {
            ExecuteStepPayload::PlayAction { animation, playback, interrupt_policy, completion_behavior, timeout_ms } => {
                PayloadView::PlayAction {
                    animation: animation@,
                    playback: *playback,
                    interrupt_policy: *interrupt_policy,
                    completion_behavior: *completion_behavior,
                    timeout_ms: *timeout_ms,
                }
            },
            ExecuteStepPayload::MoveTo { target, after, interrupt_policy, timeout_ms } => PayloadView::MoveTo {
                target: *target,
                after: opt_string_view(*after),
                interrupt_policy: *interrupt_policy,
                timeout_ms: *timeout_ms,
            },
            ExecuteStepPayload::MoveByPath { path, after, interrupt_policy, timeout_ms } => PayloadView::MoveByPath {
                path: path@,
                after: opt_string_view(*after),
                interrupt_policy: *interrupt_policy,
                timeout_ms: *timeout_ms,
            },
        }
    }
}

/// A request to run one step.
#[derive(Debug, Clone, PartialEq, Eq)]
pub struct ExecuteStepRequest {
    pub protocol_version: u64,
    pub message_id: String,
    pub step_id: String,
    pub step: ExecuteStepPayload,
}

pub struct ExecuteStepRequestView {
    pub protocol_version: u64,
    pub message_id: Seq<char>,
    pub step_id: Seq<char>,
    pub step: PayloadView,
}

impl View for ExecuteStepRequest {
    type V = ExecuteStepRequestView;

    open spec fn view(&self) -> ExecuteStepRequestView {
        ExecuteStepRequestView {
            protocol_version: self.protocol_version,
            message_id: self.message_id@,
            step_id: self.step_id@,
            step: self.step@,
        }
    }
}

pub open spec fn spec_execute_step_request(step_id: Seq<char>, step: PayloadView) -> ExecuteStepRequestView {
    ExecuteStepRequestView { protocol_version: 1, message_id: spec_message_id(step_id), step_id, step }
}

/// A request to run one step, carried by the message named after the step.
pub fn execute_step_request(step_id: &str, step: ExecuteStepPayload) -> (r: ExecuteStepRequest)
    ensures
        r@ == spec_execute_step_request(step_id@, step@),
{
    ExecuteStepRequest {
        protocol_version: SIDECAR_PROTOCOL_VERSION,
        message_id: message_id_for(step_id),
        step_id: step_id.to_owned(),
        step,
    }
}

/// A request to interrupt the running step.
#[derive(Debug, Clone, PartialEq, Eq)]
pub struct InterruptStepRequest {
    pub protocol_version: u64,
    pub message_id: String,
    pub step_id: String,
    pub reason_code: SidecarInterruptReasonCode,
}

/// A request to interrupt a step, carried by the message named after the step.
pub fn interrupt_step_request(step_id: &str, reason_code: SidecarInterruptReasonCode) -> (r: InterruptStepRequest)
    ensures
        r.protocol_version == 1,
        r.message_id@ == spec_message_id(step_id@),
        r.step_id@ == step_id@,
        r.reason_code == reason_code,
{
    InterruptStepRequest {
        protocol_version: SIDECAR_PROTOCOL_VERSION,
        message_id: message_id_for(step_id),
        step_id: step_id.to_owned(),
        reason_code,
    }
}

/// A request for the pet's state.
#[derive(Debug, Clone, PartialEq, Eq)]
pub struct QueryStateRequest {
    pub protocol_version: u64,
    pub message_id: String,
    pub request_id: String,
}

/// A request for the pet's state, carried by the message named after the request.
pub fn query_state_request(request_id: &str) -> (r: QueryStateRequest)
    ensures
        r.protocol_version == 1,
        r.message_id@ == spec_message_id(request_id@),
        r.request_id@ == request_id@,
{
    QueryStateRequest {
        protocol_version: SIDECAR_PROTOCOL_VERSION,
        message_id: message_id_for(request_id),
        request_id: request_id.to_owned(),
    }
}

} // verus!

use vstd::prelude::*;

use crate::action_log::{fallback_json, move_target_json, path_json, spec_fallback_json, spec_move_target_json, spec_path_json, Members};
use crate::json::{json_i32, json_object, json_str, json_u64, members_view, push_member, JsonValue, JsonView};
use crate::registry::{ResolutionView, StepResolution};
use crate::timeline::{PlayActionStep, PlayActionStepView};
use crate::step_protocol::{
    ExecuteStepPayload, ExecuteStepPlayback, ExecuteStepRequest, ExecuteStepRequestView, InterruptStepRequest,
    PayloadView, QueryStateRequest, SidecarInterruptPolicy, SidecarPlayActionCompletionBehavior,
    SidecarStateSnapshotResponse, SidecarStepResponse,
};
use crate::text::opt_string_view;

verus! {

/// The members with one more at the end when there is a value, and as they were otherwise: an
/// absent optional field is left out of a message.
pub open spec fn with_opt(m: Members, key: Seq<char>, value: Option<JsonView>) -> Members {
    match value {
        Some(v) => m.push((key, v)),
        None => m,
    }
}

pub open spec fn opt_str_json(o: Option<Seq<char>>) -> Option<JsonView> {
    match o {
        Some(s) => Some(JsonView::Str(s)),
        None => None,
    }
}

pub open spec fn opt_num_json(o: Option<u64>) -> Option<JsonView> {
    match o {
        Some(n) => Some(JsonView::Number(Some(n as i128))),
        None => None,
    }
}

pub open spec fn num(n: u64) -> JsonView {
    JsonView::Number(Some(n as i128))
}

fn push_opt_str(m: &mut Vec<(String, JsonValue)>, key: &str, value: &Option<String>)
    ensures
        members_view(final(m)@) == with_opt(members_view(old(m)@), key@, opt_str_json(opt_string_view(*value))),
{
    match value {
        Some(v) => push_member(m, key, json_str(v.as_str())),
        None => {},
    }
}

fn push_opt_u64(m: &mut Vec<(String, JsonValue)>, key: &str, value: Option<u64>)
    ensures
        members_view(final(m)@) == with_opt(members_view(old(m)@), key@, opt_num_json(value)),
{
    match value {
        Some(v) => push_member(m, key, json_u64(v)),
        None => {},
    }
}

fn empty_members() -> (r: Vec<(String, JsonValue)>)
    ensures
        members_view(r@) == Seq::<(Seq<char>, JsonView)>::empty(),
{
    let r: Vec<(String, JsonValue)> = Vec::new();
    assert(members_view(r@) =~= Seq::<(Seq<char>, JsonView)>::empty());
    r
}

pub open spec fn spec_interrupt_policy_name(p: SidecarInterruptPolicy) -> Seq<char> {
    match p {
        SidecarInterruptPolicy::FinishStep => "finishStep"@,
        SidecarInterruptPolicy::Interruptible => "interruptible"@,
    }
}

fn interrupt_policy_name(p: SidecarInterruptPolicy) -> (r: &'static str)
    ensures
        r@ == spec_interrupt_policy_name(p),
{
    match p {
        SidecarInterruptPolicy::FinishStep => "finishStep",
        SidecarInterruptPolicy::Interruptible => "interruptible",
    }
}

/// How the sidecar plays an animation, on the wire.
pub open spec fn spec_playback_json(p: ExecuteStepPlayback) -> JsonView {
    match p {
        ExecuteStepPlayback::Once { duration_ms } => JsonView::Object(
            Seq::empty().push(("kind"@, JsonView::Str("once"@))).push(("durationMs"@, num(duration_ms))),
        ),
        ExecuteStepPlayback::LoopForDuration { duration_ms, clip_duration_ms } => JsonView::Object(
            Seq::empty().push(("kind"@, JsonView::Str("loopForDuration"@))).push(("durationMs"@, num(duration_ms))).push(
                ("clipDurationMs"@, num(clip_duration_ms)),
            ),
        ),
    }
}

fn playback_json(p: ExecuteStepPlayback) -> (r: JsonValue)
    ensures
        r@ == spec_playback_json(p),
{
    let mut m = empty_members();
    match p {
        ExecuteStepPlayback::Once { duration_ms } => {
            push_member(&mut m, "kind", json_str("once"));
            push_member(&mut m, "durationMs", json_u64(duration_ms));
        },
        ExecuteStepPlayback::LoopForDuration { duration_ms, clip_duration_ms } => {
            push_member(&mut m, "kind", json_str("loopForDuration"));
            push_member(&mut m, "durationMs", json_u64(duration_ms));
            push_member(&mut m, "clipDurationMs", json_u64(clip_duration_ms));
        },
    }
    json_object(m)
}

/// The step of an execute request, on the wire: the default completion behavior (restore
/// idle) and an absent after-animation are left out.
pub open spec fn spec_payload_json(p: PayloadView) -> JsonView {
    match p {
        PayloadView::PlayAction { animation, playback, interrupt_policy, completion_behavior, timeout_ms } => {
            let head = Seq::empty().push(("kind"@, JsonView::Str("playAction"@))).push(
                ("animation"@, JsonView::Str(animation)),
            ).push(("playback"@, spec_playback_json(playback))).push(
                ("interruptPolicy"@, JsonView::Str(spec_interrupt_policy_name(interrupt_policy))),
            );
            let with_behavior = if completion_behavior == SidecarPlayActionCompletionBehavior::RestoreIdle {
                head
            } else {
                head.push(("completionBehavior"@, JsonView::Str("holdLastFrame"@)))
            };
            JsonView::Object(with_behavior.push(("timeoutMs"@, num(timeout_ms))))
        },
        PayloadView::MoveTo { target, after, interrupt_policy, timeout_ms } => {
            let head = Seq::empty().push(("kind"@, JsonView::Str("moveTo"@))).push(
                ("target"@, spec_move_target_json(target)),
            );
            JsonView::Object(
                with_opt(head, "after"@, opt_str_json(after)).push(
                    ("interruptPolicy"@, JsonView::Str(spec_interrupt_policy_name(interrupt_policy))),
                ).push(("timeoutMs"@, num(timeout_ms))),
            )
        },
        PayloadView::MoveByPath { path, after, interrupt_policy, timeout_ms } => {
            let head = Seq::empty().push(("kind"@, JsonView::Str("moveByPath"@))).push(
                ("path"@, spec_path_json(path)),
            );
            JsonView::Object(
                with_opt(head, "after"@, opt_str_json(after)).push(
                    ("interruptPolicy"@, JsonView::Str(spec_interrupt_policy_name(interrupt_policy))),
                ).push(("timeoutMs"@, num(timeout_ms))),
            )
        },
    }
}

pub fn execute_step_payload_json(p: &ExecuteStepPayload) -> (r: JsonValue)
    ensures
        r@ == spec_payload_json(p@),
{
    let mut m = empty_members();
    match p {
        ExecuteStepPayload::PlayAction { animation, playback, interrupt_policy, completion_behavior, timeout_ms } => {
            push_member(&mut m, "kind", json_str("playAction"));
            push_member(&mut m, "animation", json_str(animation.as_str()));
            push_member(&mut m, "playback", playback_json(*playback));
            push_member(&mut m, "interruptPolicy", json_str(interrupt_policy_name(*interrupt_policy)));
            if !completion_behavior.is_restore_idle() {
                push_member(&mut m, "completionBehavior", json_str("holdLastFrame"));
            }
            push_member(&mut m, "timeoutMs", json_u64(*timeout_ms));
        },
        ExecuteStepPayload::MoveTo { target, after, interrupt_policy, timeout_ms } => {
            push_member(&mut m, "kind", json_str("moveTo"));
            push_member(&mut m, "target", move_target_json(target));
            push_opt_str(&mut m, "after", after);
            push_member(&mut m, "interruptPolicy", json_str(interrupt_policy_name(*interrupt_policy)));
            push_member(&mut m, "timeoutMs", json_u64(*timeout_ms));
        },
        ExecuteStepPayload::MoveByPath { path, after, interrupt_policy, timeout_ms } => {
            push_member(&mut m, "kind", json_str("moveByPath"));
            push_member(&mut m, "path", path_json(path));
            push_opt_str(&mut m, "after", after);
            push_member(&mut m, "interruptPolicy", json_str(interrupt_policy_name(*interrupt_policy)));
            push_member(&mut m, "timeoutMs", json_u64(*timeout_ms));
        },
    }
    json_object(m)
}

/// A request to run a step, on the wire.
pub open spec fn spec_execute_step_request_json(r: ExecuteStepRequestView) -> JsonView {
    JsonView::Object(
        Seq::empty().push(("protocolVersion"@, num(r.protocol_version))).push(
            ("messageId"@, JsonView::Str(r.message_id)),
        ).push(("type"@, JsonView::Str("executeStep"@))).push(("stepId"@, JsonView::Str(r.step_id))).push(
            ("step"@, spec_payload_json(r.step)),
        ),
    )
}

/// Writes a request to run a step as the JSON message the sidecar reads.
pub fn execute_step_request_json(r: &ExecuteStepRequest) -> (j: JsonValue)
    ensures
        j@ == spec_execute_step_request_json(r@),
{
    let mut m = empty_members();
    push_member(&mut m, "protocolVersion", json_u64(r.protocol_version));
    push_member(&mut m, "messageId", json_str(r.message_id.as_str()));
    push_member(&mut m, "type", json_str("executeStep"));
    push_member(&mut m, "stepId", json_str(r.step_id.as_str()));
    push_member(&mut m, "step", execute_step_payload_json(&r.step));
    json_object(m)
}

/// A request to interrupt a step, on the wire.
pub open spec fn spec_interrupt_step_request_json(r: InterruptStepRequest) -> JsonView {
    JsonView::Object(
        Seq::empty().push(("protocolVersion"@, num(r.protocol_version))).push(
            ("messageId"@, JsonView::Str(r.message_id@)),
        ).push(("type"@, JsonView::Str("interruptStep"@))).push(("stepId"@, JsonView::Str(r.step_id@))).push(
            ("reasonCode"@, JsonView::Str(r.reason_code.spec_as_str())),
        ),
    )
}

/// Writes a request to interrupt a step as the JSON message the sidecar reads.
pub fn interrupt_step_request_json(r: &InterruptStepRequest) -> (j: JsonValue)
    ensures
        j@ == spec_interrupt_step_request_json(*r),
{
    let mut m = empty_members();
    push_member(&mut m, "protocolVersion", json_u64(r.protocol_version));
    push_member(&mut m, "messageId", json_str(r.message_id.as_str()));
    push_member(&mut m, "type", json_str("interruptStep"));
    push_member(&mut m, "stepId", json_str(r.step_id.as_str()));
    push_member(&mut m, "reasonCode", json_str(r.reason_code.as_str()));
    json_object(m)
}

/// A request for the pet's state, on the wire.
pub open spec fn spec_query_state_request_json(r: QueryStateRequest) -> JsonView {
    JsonView::Object(
        Seq::empty().push(("protocolVersion"@, num(r.protocol_version))).push(
            ("messageId"@, JsonView::Str(r.message_id@)),
        ).push(("type"@, JsonView::Str("queryState"@))).push(("requestId"@, JsonView::Str(r.request_id@))),
    )
}

/// Writes a request for the pet's state as the JSON message the sidecar reads.
pub fn query_state_request_json(r: &QueryStateRequest) -> (j: JsonValue)
    ensures
        j@ == spec_query_state_request_json(*r),
{
    let mut m = empty_members();
    push_member(&mut m, "protocolVersion", json_u64(r.protocol_version));
    push_member(&mut m, "messageId", json_str(r.message_id.as_str()));
    push_member(&mut m, "type", json_str("queryState"));
    push_member(&mut m, "requestId", json_str(r.request_id.as_str()));
    json_object(m)
}

/// The members every response starts with: its version, what it answers when known, and its
/// type.
pub open spec fn spec_response_head(protocol_version: u64, correlation_id: Option<Seq<char>>, message_type: Seq<char>) -> Members {
    with_opt(
        Seq::empty().push(("protocolVersion"@, num(protocol_version))),
        "correlationId"@,
        opt_str_json(correlation_id),
    ).push(("type"@, JsonView::Str(message_type)))
}

/// A sidecar's answer to a step, on the wire; absent optional fields are left out.
pub open spec fn spec_step_response_json(r: SidecarStepResponse) -> JsonView {
    match r {
        SidecarStepResponse::StepCompleted(c) => JsonView::Object(
            spec_response_head(c.protocol_version, opt_string_view(c.correlation_id), "stepCompleted"@).push(
                ("stepId"@, JsonView::Str(c.step_id@)),
            ).push(("elapsedMs"@, num(c.elapsed_ms))),
        ),
        SidecarStepResponse::StepFailed(c) => JsonView::Object(
            with_opt(
                spec_response_head(c.protocol_version, opt_string_view(c.correlation_id), "stepFailed"@).push(
                    ("stepId"@, JsonView::Str(c.step_id@)),
                ).push(("code"@, JsonView::Str(c.code.spec_as_str()))).push(("message"@, JsonView::Str(c.message@))),
                "elapsedMs"@,
                opt_num_json(c.elapsed_ms),
            ),
        ),
        SidecarStepResponse::StepInterrupted(c) => JsonView::Object(
            with_opt(
                spec_response_head(c.protocol_version, opt_string_view(c.correlation_id), "stepInterrupted"@).push(
                    ("stepId"@, JsonView::Str(c.step_id@)),
                ).push(("reasonCode"@, JsonView::Str(c.reason_code.spec_as_str()))),
                "elapsedMs"@,
                opt_num_json(c.elapsed_ms),
            ),
        ),
        SidecarStepResponse::ProtocolError(c) => JsonView::Object(
            with_opt(
                spec_response_head(c.protocol_version, opt_string_view(c.correlation_id), "protocolError"@),
                "stepId"@,
                opt_str_json(opt_string_view(c.step_id)),
            ).push(("code"@, JsonView::Str(c.code.spec_as_str()))).push(("message"@, JsonView::Str(c.message@))),
        ),
    }
}

fn response_head(protocol_version: u64, correlation_id: &Option<String>, message_type: &str) -> (r: Vec<
    (String, JsonValue),
>)
    ensures
        members_view(r@) == spec_response_head(protocol_version, opt_string_view(*correlation_id), message_type@),
{
    let mut m = empty_members();
    push_member(&mut m, "protocolVersion", json_u64(protocol_version));
    push_opt_str(&mut m, "correlationId", correlation_id);
    push_member(&mut m, "type", json_str(message_type));
    m
}

/// Writes a sidecar's answer to a step as the JSON message it sends.
pub fn step_response_json(r: &SidecarStepResponse) -> (j: JsonValue)
    ensures
        j@ == spec_step_response_json(*r),
{
    match r {
        SidecarStepResponse::StepCompleted(c) => {
            let mut m = response_head(c.protocol_version, &c.correlation_id, "stepCompleted");
            push_member(&mut m, "stepId", json_str(c.step_id.as_str()));
            push_member(&mut m, "elapsedMs", json_u64(c.elapsed_ms));
            json_object(m)
        },
        SidecarStepResponse::StepFailed(c) => {
            let mut m = response_head(c.protocol_version, &c.correlation_id, "stepFailed");
            push_member(&mut m, "stepId", json_str(c.step_id.as_str()));
            push_member(&mut m, "code", json_str(c.code.as_str()));
            push_member(&mut m, "message", json_str(c.message.as_str()));
            push_opt_u64(&mut m, "elapsedMs", c.elapsed_ms);
            json_object(m)
        },
        SidecarStepResponse::StepInterrupted(c) => {
            let mut m = response_head(c.protocol_version, &c.correlation_id, "stepInterrupted");
            push_member(&mut m, "stepId", json_str(c.step_id.as_str()));
            push_member(&mut m, "reasonCode", json_str(c.reason_code.as_str()));
            push_opt_u64(&mut m, "elapsedMs", c.elapsed_ms);
            json_object(m)
        },
        SidecarStepResponse::ProtocolError(c) => {
            let mut m = response_head(c.protocol_version, &c.correlation_id, "protocolError");
            push_opt_str(&mut m, "stepId", &c.step_id);
            push_member(&mut m, "code", json_str(c.code.as_str()));
            push_member(&mut m, "message", json_str(c.message.as_str()));
            json_object(m)
        },
    }
}

/// A sidecar's answer to a state query, on the wire.
pub open spec fn spec_state_snapshot_response_json(r: SidecarStateSnapshotResponse) -> JsonView {
    JsonView::Object(
        spec_response_head(r.protocol_version, opt_string_view(r.correlation_id), "stateSnapshot"@).push(
            ("requestId"@, JsonView::Str(r.request_id@)),
        ).push(
            (
                "position"@,
                JsonView::Object(
                    Seq::empty().push(("x"@, JsonView::Number(Some(r.position.x as i128)))).push(
                        ("y"@, JsonView::Number(Some(r.position.y as i128))),
                    ),
                ),
            ),
        ),
    )
}

/// Writes a sidecar's answer to a state query as the JSON message it sends.
pub fn state_snapshot_response_json(r: &SidecarStateSnapshotResponse) -> (j: JsonValue)
    ensures
        j@ == spec_state_snapshot_response_json(*r),
{
    let mut position = empty_members();
    push_member(&mut position, "x", json_i32(r.position.x));
    push_member(&mut position, "y", json_i32(r.position.y));
    let mut m = response_head(r.protocol_version, &r.correlation_id, "stateSnapshot");
    push_member(&mut m, "requestId", json_str(r.request_id.as_str()));
    push_member(&mut m, "position", json_object(position));
    json_object(m)
}

/// A play action step as the log writes it: absent optional fields and the default completion
/// behavior (restore idle) are left out.
pub open spec fn spec_play_action_step_json(s: PlayActionStepView) -> JsonView {
    let head = Seq::empty().push(("stepId"@, JsonView::Str(s.step_id))).push(("kind"@, JsonView::Str(s.kind))).push(
        ("actionId"@, JsonView::Str(s.action_id)),
    );
    let with_playback = with_opt(head, "fallbackActionId"@, opt_str_json(s.fallback_action_id)).push(
        ("expectedPlayback"@, JsonView::Str(s.expected_playback)),
    );
    let with_handoff = with_opt(
        with_opt(with_playback, "durationMs"@, opt_num_json(s.duration_ms)),
        "pendingHandoffFinalizerStepId"@,
        opt_str_json(s.pending_handoff_finalizer_step_id),
    );
    let with_behavior = if s.completion_behavior == SidecarPlayActionCompletionBehavior::RestoreIdle {
        with_handoff
    } else {
        with_handoff.push(("completionBehavior"@, JsonView::Str("holdLastFrame"@)))
    };
    JsonView::Object(with_behavior.push(("timeoutMs"@, num(s.timeout_ms))))
}

/// Writes a play action step as the log writes it.
pub fn play_action_step_json(s: &PlayActionStep) -> (r: JsonValue)
    ensures
        r@ == spec_play_action_step_json(s@),
{
    let mut m = empty_members();
    push_member(&mut m, "stepId", json_str(s.step_id.as_str()));
    push_member(&mut m, "kind", json_str(s.kind.as_str()));
    push_member(&mut m, "actionId", json_str(s.action_id.as_str()));
    push_opt_str(&mut m, "fallbackActionId", &s.fallback_action_id);
    push_member(&mut m, "expectedPlayback", json_str(s.expected_playback.as_str()));
    push_opt_u64(&mut m, "durationMs", s.duration_ms);
    push_opt_str(&mut m, "pendingHandoffFinalizerStepId", &s.pending_handoff_finalizer_step_id);
    if !s.completion_behavior.is_restore_idle() {
        push_member(&mut m, "completionBehavior", json_str("holdLastFrame"));
    }
    push_member(&mut m, "timeoutMs", json_u64(s.timeout_ms));
    json_object(m)
}

/// A resolved action as the log writes it: the action, its animation and playback, its
/// interrupt policy, and the fallback that led to it when there was one.
pub open spec fn spec_resolution_json(r: ResolutionView) -> JsonView {
    let head = Seq::empty().push(("actionId"@, JsonView::Str(r.action_id))).push(
        ("animationRef"@, JsonView::Str(r.animation_ref)),
    ).push(("playbackKind"@, JsonView::Str(r.playback_kind))).push(("durationMs"@, num(r.duration_ms))).push(
        ("loopAnimation"@, JsonView::Bool(r.loop_animation)),
    ).push(("interruptPolicy"@, JsonView::Str(spec_interrupt_policy_name(r.interrupt_policy))));
    let with_fallback = match r.fallback {
        Some(f) => head.push(("fallback"@, spec_fallback_json(f))),
        None => head,
    };
    JsonView::Object(with_fallback.push(("clipDurationMs"@, num(r.clip_duration_ms))))
}

/// Writes a resolved action as the log writes it.
pub fn resolution_json(r: &StepResolution) -> (j: JsonValue)
    ensures
        j@ == spec_resolution_json(r@),
{
    let mut m = empty_members();
    push_member(&mut m, "actionId", json_str(r.action_id.as_str()));
    push_member(&mut m, "animationRef", json_str(r.animation_ref.as_str()));
    push_member(&mut m, "playbackKind", json_str(r.playback_kind.as_str()));
    push_member(&mut m, "durationMs", json_u64(r.duration_ms));
    push_member(&mut m, "loopAnimation", JsonValue::Bool(r.loop_animation));
    push_member(&mut m, "interruptPolicy", json_str(interrupt_policy_name(r.interrupt_policy)));
    if let Some(f) = &r.fallback {
        push_member(&mut m, "fallback", fallback_json(f));
    }
    push_member(&mut m, "clipDurationMs", json_u64(r.clip_duration_ms));
    json_object(m)
}

} // verus!

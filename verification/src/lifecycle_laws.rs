//! What a hook report promises as a whole, proved over its step function.
use crate::herdr::{
    answer, detector_args, native_support, pane_get_args, registration, session_identity, Reply,
};
use crate::json::{is_text, member, text_of, Json};
use crate::lifecycle::{
    event_label, event_named, hook_gate, lifecycle_report, lifecycle_step, native_args, pane_of,
    report_args, source_named, state_for, state_label, usable_value, LifecycleEvent,
    AgentState, HookInput, Lifecycle, LifecycleStatus, NativeStatus, Report, SkipReason, Stage,
    StartSource, StepView,
};
use vstd::prelude::*;

verus! {

/// How many calls a report in `stage` can still make at most.
pub open spec fn calls_left(stage: Stage) -> nat {
    match stage {
        Stage::Plugins => 9,
        Stage::Pane => 8,
        Stage::Reported(_) => 7,
        Stage::ReadBack(_) => 6,
        Stage::NativePlugins(_) => 5,
        Stage::NativePane(_) => 4,
        Stage::NativeDetector(_) => 3,
        Stage::NativeReported(_) => 2,
        Stage::NativeReadBack(_) => 1,
        Stage::Finished => 0,
    }
}

/// Every report ends: each call moves it to a stage with fewer calls left, and a
/// finished report makes no call.
pub proof fn law_report_ends(m: Lifecycle, reply: Reply)
    ensures
        lifecycle_step(m, reply).1 is Call ==> calls_left(lifecycle_step(m, reply).0.stage)
            < calls_left(m.stage),
        m.stage is Finished ==> lifecycle_step(m, reply).1 is Finish,
{
}

/// The first thing a report asks Herdr is whether the plugin is registered and enabled;
/// unless it is, no pane is read or changed.
pub proof fn law_plugin_checked_first(m: Lifecycle, reply: Reply)
    requires
        m.stage is Plugins,
    ensures
        lifecycle_step(m, reply).1 is Call ==> answer(reply) is Some && registration(
            answer(reply)->Some_0,
        ) == Some(true) && lifecycle_step(m, reply).1 == StepView::Call(
            pane_get_args(m.input.pane@),
        ),
        (answer(reply) matches Some(v) && registration(v) == Some(false)) ==> lifecycle_step(
            m,
            reply,
        ).1 == StepView::Finish(Report::Skipped(SkipReason::DisabledOrUnlinked)),
{
}

/// A call that fails (no output, output that is not JSON, or an answer with an `error`)
/// ends the report at once, which is then unavailable or, during the native identity
/// report, carries an unavailable native identity.
pub proof fn law_failure_ends_report(m: Lifecycle, reply: Reply)
    requires
        answer(reply) is None,
    ensures
        lifecycle_step(m, reply).1 is Finish,
        lifecycle_step(m, reply).1 matches StepView::Finish(r) && (r is Unavailable || (r matches Report::Lifecycle(l) && l.native_identity == Some(NativeStatus::Unavailable))),
{
}

/// A pane held by another agent is never reported on, except that a session end may
/// still release it.
pub proof fn law_foreign_pane_untouched(m: Lifecycle, reply: Reply, a: Seq<char>)
    requires
        m.stage is Pane,
        !(m.input.event is SessionEnd),
        answer(reply) is Some,
        pane_of(answer(reply)->Some_0) is Object,
        text_of(member(pane_of(answer(reply)->Some_0), "agent"@)) == Some(a),
        a != "jcode"@,
    ensures
        lifecycle_step(m, reply).1 == StepView::Finish(Report::Skipped(SkipReason::AnotherAgent)),
{
}

/// A turn start reports `working`, a turn end `idle`, and a session end releases the
/// pane, whatever state was worked out.
pub proof fn law_event_states(input: HookInput, pane: Json, state: AgentState)
    ensures
        input.event is TurnStart ==> state_for(input, pane) == AgentState::Working,
        input.event is TurnEnd ==> state_for(input, pane) == AgentState::Idle,
        input.event is SessionEnd ==> report_args(input, state).take(7) == seq![
            "pane"@,
            "release-agent"@,
            input.pane@,
            "--source"@,
            crate::herdr::STATE_SOURCE@,
            "--agent"@,
            "jcode"@,
        ],
        input.event is SessionEnd ==> report_args(input, state) == report_args(
            input,
            AgentState::Idle,
        ),
        !(input.event is SessionEnd) ==> report_args(input, state).subrange(7, 11) == seq![
            "--state"@,
            state_label(state),
            "--agent-session-id"@,
            input.session@,
        ],
{
    reveal_strlit("--state");
    reveal_strlit("pane");
    reveal_strlit("release-agent");
    reveal_strlit("--source");
    reveal_strlit("--agent");
    reveal_strlit("jcode");
    reveal_strlit("--seq");
    let args = report_args(input, state);
    if input.event is SessionEnd {
        assert(args.take(7) =~= seq![
            "pane"@,
            "release-agent"@,
            input.pane@,
            "--source"@,
            crate::herdr::STATE_SOURCE@,
            "--agent"@,
            "jcode"@,
        ]);
    } else {
        assert(args.subrange(7, 11) =~= seq![
            "--state"@,
            state_label(state),
            "--agent-session-id"@,
            input.session@,
        ]);
    }
}

/// Attaching to or resuming a session keeps the working or blocked state Herdr shows for
/// Jcode; creating one starts idle.
pub proof fn law_resume_keeps_state(input: HookInput, pane: Json)
    requires
        input.event is SessionStart,
    ensures
        input.source == Some(StartSource::Create) ==> state_for(input, pane) == AgentState::Idle,
        input.source != Some(StartSource::Create) && is_text(member(pane, "agent"@), "jcode"@)
            && is_text(member(pane, "agent_status"@), "working"@) ==> state_for(input, pane)
            == AgentState::Working,
        input.source != Some(StartSource::Create) && is_text(member(pane, "agent"@), "jcode"@)
            && is_text(member(pane, "agent_status"@), "blocked"@) ==> state_for(input, pane)
            == AgentState::Blocked,
{
    reveal_strlit("working");
    reveal_strlit("blocked");
    assert("working"@[0] != "blocked"@[0]);
}

/// A state report counts as reported only when the pane read back afterwards shows Jcode
/// in the reported state.
pub proof fn law_reported_only_after_read_back(input: HookInput, state: AgentState, after: Json)
    ensures
        lifecycle_report(input, state, after).status == LifecycleStatus::Reported ==> is_text(
            member(after, "agent"@),
            "jcode"@,
        ) && is_text(member(after, "agent_status"@), state_label(state)),
        input.event is SessionEnd ==> lifecycle_report(input, state, after).status
            == LifecycleStatus::ReleaseRequested,
{
}

/// The native session identity is reported (`report-agent-session`) only once the host's
/// detector has said that it recognises Jcode; a host that does not ends the native
/// report; and only a session start goes on from its state report to a native one.
pub proof fn law_native_identity_guarded(m: Lifecycle, reply: Reply)
    ensures
        (lifecycle_step(m, reply).1 matches StepView::Call(a) && a.len() > 1 && a[1]
            == "report-agent-session"@) ==> m.stage is NativeDetector && answer(reply) is Some
            && native_support(answer(reply)->Some_0),
        m.stage is NativeDetector && answer(reply) is Some && !native_support(
            answer(reply)->Some_0,
        ) ==> lifecycle_step(m, reply).1 is Finish,
        m.stage is ReadBack && !(m.input.event is SessionStart) ==> lifecycle_step(m, reply).1 is Finish,
{
    reveal_strlit("report-agent-session");
    reveal_strlit("report-agent");
    reveal_strlit("release-agent");
    reveal_strlit("get");
    reveal_strlit("list");
    reveal_strlit("explain");
    assert("report-agent-session"@.len() == 20);
}

/// The producer's sequence number, when there is one, ends the state report as
/// `--seq <n>` and makes the report claim producer ordering; without one the report is
/// best effort and carries no `--seq`.
pub proof fn law_sequence_carried(input: HookInput, state: AgentState, after: Json)
    ensures
        input.sequence matches Some(q) ==> report_args(input, state).len() >= 2 && report_args(
            input,
            state,
        ).last() == q@ && report_args(input, state)[report_args(input, state).len() - 2]
            == "--seq"@,
        input.sequence is None ==> report_args(input, state).len() == if input.event is SessionEnd {
            7int
        } else {
            11int
        },
        (lifecycle_report(input, state, after).sequencing is ProducerSequence) == (
        input.sequence is Some),
{
}

/// The native identity report never carries the producer's sequence number (for a pane
/// and a session that are not themselves the text `--seq`).
pub proof fn law_native_report_unsequenced(input: HookInput)
    requires
        input.pane@ != "--seq"@,
        input.session@ != "--seq"@,
    ensures
        !native_args(input).contains("--seq"@),
{
    reveal_strlit("--seq");
    reveal_strlit("pane");
    reveal_strlit("report-agent-session");
    reveal_strlit("--source");
    reveal_strlit("herdr:jcode");
    reveal_strlit("--agent");
    reveal_strlit("jcode");
    reveal_strlit("--agent-session-id");
    reveal_strlit("--session-start-source");
    reveal_strlit("resume");
    reveal_strlit("startup");
    let a = native_args(input);
    assert forall|k: int| 0 <= k < a.len() implies a[k] != "--seq"@ by {
        if k != 2 && k != 8 {
            assert(a[k].len() != 5 || a[k][2] != "--seq"@[2]);
        }
    }
}

/// On a session start, whatever its source, the state reported is `working` only when
/// the pane shows Jcode working, `blocked` only when it shows Jcode blocked, and `idle`
/// otherwise; a created session is always idle.
pub proof fn law_session_start_state_follows_pane(input: HookInput, pane: Json)
    requires
        input.event is SessionStart,
    ensures
        state_for(input, pane) == AgentState::Working ==> is_text(member(pane, "agent"@), "jcode"@)
            && is_text(member(pane, "agent_status"@), "working"@),
        state_for(input, pane) == AgentState::Blocked ==> is_text(member(pane, "agent"@), "jcode"@)
            && is_text(member(pane, "agent_status"@), "blocked"@),
        !(is_text(member(pane, "agent"@), "jcode"@) && (is_text(member(pane, "agent_status"@), "working"@)
            || is_text(member(pane, "agent_status"@), "blocked"@))) ==> state_for(input, pane)
            == AgentState::Idle,
        input.source == Some(StartSource::Create) ==> state_for(input, pane) == AgentState::Idle,
{
}

/// The native identity report ends in a conflict only when the pane holds an agent
/// session that is not this session's own identity (this session, recorded by this
/// plugin for Jcode); the pane's own identity for this very session is never a conflict.
pub proof fn law_conflict_only_with_another_identity(m: Lifecycle, reply: Reply)
    ensures
        (lifecycle_step(m, reply).1 matches StepView::Finish(Report::Lifecycle(l))
            && l.native_identity == Some(NativeStatus::IdentityConflict)) ==> m.stage is NativePane
            && answer(reply) is Some && !(member(pane_of(answer(reply)->Some_0), "agent_session"@) is Null)
            && session_identity(answer(reply)->Some_0) != Some(
            (m.input.session@, "herdr:jcode"@, "jcode"@),
        ),
        m.stage is NativePane && answer(reply) is Some && pane_of(answer(reply)->Some_0) is Object
            && session_identity(answer(reply)->Some_0) == Some(
            (m.input.session@, "herdr:jcode"@, "jcode"@),
        ) ==> lifecycle_step(m, reply).1 == StepView::Call(detector_args()),
{
}

/// Every lifecycle event is named by its label and by nothing else: the four names
/// `session_start`, `turn_start`, `turn_end` and `session_end` each give their own event,
/// and a name gives an event only when it is that event's label.
pub proof fn law_event_names(e: LifecycleEvent, t: Seq<char>)
    ensures
        event_named(event_label(e)) == Some(e),
        event_named(t) matches Some(x) ==> event_label(x) == t,
{
    reveal_strlit("session_start");
    reveal_strlit("turn_start");
    reveal_strlit("turn_end");
    reveal_strlit("session_end");
    assert("session_start"@.len() == 13 && "turn_start"@.len() == 10 && "turn_end"@.len() == 8
        && "session_end"@.len() == 11);
}

/// Inside Herdr, with usable identifiers, a known binary, no sequence and (on a session
/// start) a known source, the hook goes on for every one of the four events, with that
/// event and the environment's pane and session.
pub proof fn law_hook_gate_accepts_events(
    e: LifecycleEvent,
    herdr_env: Option<String>,
    event: String,
    source: String,
    pane: Option<String>,
    session: Option<String>,
    socket: Option<String>,
)
    requires
        herdr_env matches Some(h) && h@ == "1"@,
        event@ == event_label(e),
        e is SessionStart ==> source_named(source@) is Some,
        usable_value(pane),
        usable_value(session),
        usable_value(socket),
    ensures
        hook_gate(herdr_env, event, source, None, pane, session, socket, true) matches Ok(i)
            && i.event == e && i.pane == pane->Some_0 && i.session == session->Some_0,
{
    law_event_names(e, event@);
}

} // verus!

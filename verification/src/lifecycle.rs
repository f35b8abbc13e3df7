//! The decisions of a hook report: which Herdr CLI call comes next, and what the report
//! says, from the hook's input and Herdr's answers so far.
use crate::herdr::{
    answer, answer_of, detector_args, detector_call, enabled, native_detector, native_support,
    pane_get_args, pane_get_call, plugin_list_args, plugin_list_call, push_word, registration,
    session_identity, session_is, words, Reply, STATE_SOURCE,
};
use crate::json::{is_text, member, text_of, Json};
use crate::text::same_text;
use vstd::prelude::*;
use vstd::utf8::encode_utf8;

verus! {

/// A Jcode lifecycle event.
pub enum LifecycleEvent {
    SessionStart,
    TurnStart,
    TurnEnd,
    SessionEnd,
}

/// How a Jcode session started.
pub enum StartSource {
    Create,
    Attach,
    Resume,
}

/// The state reported for the agent.
pub enum AgentState {
    Working,
    Blocked,
    Idle,
}

/// Why a report was skipped.
pub enum SkipReason {
    OutsideHerdr,
    UnsupportedEvent,
    UnsupportedSource,
    InvalidSequence,
    MissingEnv,
    DisabledOrUnlinked,
    AnotherAgent,
    NoModelInfo,
    MissingPaneId,
}

/// How a lifecycle report ended.
pub enum LifecycleStatus {
    ReleaseRequested,
    Reported,
    NotConfirmed,
}

/// Whether reports carry the producer's sequence number.
pub enum Sequencing {
    ProducerSequence,
    BestEffort,
}

/// How the native session identity report ended.
pub enum NativeStatus {
    Skipped(SkipReason),
    IdentityConflict,
    UnsupportedHost,
    Reported,
    NotConfirmed,
    Unavailable,
}

/// The report of a lifecycle event that reached Herdr.
pub struct LifecycleReport {
    pub status: LifecycleStatus,
    pub event: LifecycleEvent,
    /// The state asked for; `None` for a release.
    pub state: Option<AgentState>,
    /// The pane's `agent_status` read back after the report.
    pub observed_state: Json,
    pub sequencing: Sequencing,
    /// The outcome of the native identity report, made on session start only.
    pub native_identity: Option<NativeStatus>,
}

/// What a hook report prints.
pub enum Report {
    Skipped(SkipReason),
    Unavailable,
    Lifecycle(LifecycleReport),
}

/// A hook report's input, validated.
pub struct HookInput {
    pub pane: String,
    pub session: String,
    pub event: LifecycleEvent,
    /// The session's start source, for a session start.
    pub source: Option<StartSource>,
    /// The producer's sequence number, all decimal digits.
    pub sequence: Option<String>,
}

/// Where a report stands: the answer it waits for.
pub enum Stage {
    Plugins,
    Pane,
    Reported(AgentState),
    ReadBack(AgentState),
    NativePlugins(LifecycleReport),
    NativePane(LifecycleReport),
    NativeDetector(LifecycleReport),
    NativeReported(LifecycleReport),
    NativeReadBack(LifecycleReport),
    Finished,
}

/// A hook report in progress.
pub struct Lifecycle {
    pub input: HookInput,
    pub stage: Stage,
}

/// What to do next: call Herdr's CLI with these arguments, or print the report.
pub enum Step {
    Call(Vec<String>),
    Finish(Report),
}

/// A step with its arguments as texts.
pub enum StepView {
    Call(Seq<Seq<char>>),
    Finish(Report),
}

impl Step {
    pub open spec fn view(self) -> StepView {
        match self {
            Step::Call(v) => StepView::Call(words(v@)),
            Step::Finish(r) => StepView::Finish(r),
        }
    }
}

/// The label of a lifecycle event.
pub open spec fn event_label(e: LifecycleEvent) -> Seq<char> {
    match e {
        LifecycleEvent::SessionStart => "session_start"@,
        LifecycleEvent::TurnStart => "turn_start"@,
        LifecycleEvent::TurnEnd => "turn_end"@,
        LifecycleEvent::SessionEnd => "session_end"@,
    }
}

/// The label of an agent state.
pub open spec fn state_label(s: AgentState) -> Seq<char> {
    match s {
        AgentState::Working => "working"@,
        AgentState::Blocked => "blocked"@,
        AgentState::Idle => "idle"@,
    }
}

impl LifecycleEvent {
    /// The event's name.
    pub fn label(&self) -> (r: &'static str)
        ensures
            r@ == event_label(*self),
    {
        match self {
            LifecycleEvent::SessionStart => "session_start",
            LifecycleEvent::TurnStart => "turn_start",
            LifecycleEvent::TurnEnd => "turn_end",
            LifecycleEvent::SessionEnd => "session_end",
        }
    }
}

impl AgentState {
    /// The state's name.
    pub fn label(&self) -> (r: &'static str)
        ensures
            r@ == state_label(*self),
    {
        match self {
            AgentState::Working => "working",
            AgentState::Blocked => "blocked",
            AgentState::Idle => "idle",
        }
    }
}

/// The label of a skip reason.
pub open spec fn skip_label(s: SkipReason) -> Seq<char> {
    match s {
        SkipReason::OutsideHerdr => "outside_herdr"@,
        SkipReason::UnsupportedEvent => "unsupported_event"@,
        SkipReason::UnsupportedSource => "unsupported_source"@,
        SkipReason::InvalidSequence => "invalid_sequence"@,
        SkipReason::MissingEnv => "missing_env"@,
        SkipReason::DisabledOrUnlinked => "disabled_or_unlinked"@,
        SkipReason::AnotherAgent => "another_agent"@,
        SkipReason::NoModelInfo => "no_model_info"@,
        SkipReason::MissingPaneId => "missing_pane_id"@,
    }
}

/// The label of a lifecycle report's status.
pub open spec fn status_label(s: LifecycleStatus) -> Seq<char> {
    match s {
        LifecycleStatus::ReleaseRequested => "release_requested"@,
        LifecycleStatus::Reported => "reported"@,
        LifecycleStatus::NotConfirmed => "not_confirmed"@,
    }
}

/// The label of an ordering guarantee.
pub open spec fn sequencing_label(s: Sequencing) -> Seq<char> {
    match s {
        Sequencing::ProducerSequence => "producer_sequence"@,
        Sequencing::BestEffort => "best_effort"@,
    }
}

/// The label of a native identity report's outcome.
pub open spec fn native_label(s: NativeStatus) -> Seq<char> {
    match s {
        NativeStatus::Skipped(_) => "skipped"@,
        NativeStatus::IdentityConflict => "identity_conflict"@,
        NativeStatus::UnsupportedHost => "unsupported_host"@,
        NativeStatus::Reported => "reported"@,
        NativeStatus::NotConfirmed => "not_confirmed"@,
        NativeStatus::Unavailable => "unavailable"@,
    }
}

impl SkipReason {
    /// The reason as the report states it.
    pub fn label(&self) -> (r: &'static str)
        ensures
            r@ == skip_label(*self),
    {
        match self {
            SkipReason::OutsideHerdr => "outside_herdr",
            SkipReason::UnsupportedEvent => "unsupported_event",
            SkipReason::UnsupportedSource => "unsupported_source",
            SkipReason::InvalidSequence => "invalid_sequence",
            SkipReason::MissingEnv => "missing_env",
            SkipReason::DisabledOrUnlinked => "disabled_or_unlinked",
            SkipReason::AnotherAgent => "another_agent",
            SkipReason::NoModelInfo => "no_model_info",
            SkipReason::MissingPaneId => "missing_pane_id",
        }
    }
}

impl LifecycleStatus {
    /// The status as the report states it.
    pub fn label(&self) -> (r: &'static str)
        ensures
            r@ == status_label(*self),
    {
        match self {
            LifecycleStatus::ReleaseRequested => "release_requested",
            LifecycleStatus::Reported => "reported",
            LifecycleStatus::NotConfirmed => "not_confirmed",
        }
    }
}

impl Sequencing {
    /// The ordering guarantee as the report states it.
    pub fn label(&self) -> (r: &'static str)
        ensures
            r@ == sequencing_label(*self),
    {
        match self {
            Sequencing::ProducerSequence => "producer_sequence",
            Sequencing::BestEffort => "best_effort",
        }
    }
}

impl NativeStatus {
    /// The status as the report states it.
    pub fn label(&self) -> (r: &'static str)
        ensures
            r@ == native_label(*self),
    {
        match self {
            NativeStatus::Skipped(_) => "skipped",
            NativeStatus::IdentityConflict => "identity_conflict",
            NativeStatus::UnsupportedHost => "unsupported_host",
            NativeStatus::Reported => "reported",
            NativeStatus::NotConfirmed => "not_confirmed",
            NativeStatus::Unavailable => "unavailable",
        }
    }
}

/// The arguments of the state report: `report-agent` with the state and session, or
/// `release-agent` for a session end, with the producer's sequence when there is one.
pub open spec fn report_args(input: HookInput, state: AgentState) -> Seq<Seq<char>> {
    let release = input.event is SessionEnd;
    let base = seq![
        "pane"@,
        if release {
            "release-agent"@
        } else {
            "report-agent"@
        },
        input.pane@,
        "--source"@,
        STATE_SOURCE@,
        "--agent"@,
        "jcode"@,
    ];
    let with_state = if release {
        base
    } else {
        base + seq!["--state"@, state_label(state), "--agent-session-id"@, input.session@]
    };
    match input.sequence {
        Some(s) => with_state + seq!["--seq"@, s@],
        None => with_state,
    }
}

/// The start source named in the native identity report.
pub open spec fn native_source(source: Option<StartSource>) -> Seq<char> {
    if source == Some(StartSource::Resume) {
        "resume"@
    } else {
        "startup"@
    }
}

/// The arguments of the native identity report.
pub open spec fn native_args(input: HookInput) -> Seq<Seq<char>> {
    seq![
        "pane"@,
        "report-agent-session"@,
        input.pane@,
        "--source"@,
        "herdr:jcode"@,
        "--agent"@,
        "jcode"@,
        "--agent-session-id"@,
        input.session@,
        "--session-start-source"@,
        native_source(input.source),
    ]
}

/// The state to report: working at a turn start; on a session start that resumes or
/// attaches to a pane Jcode already holds, its working or blocked state is kept; idle
/// otherwise.
pub open spec fn state_for(input: HookInput, pane: Json) -> AgentState {
    match input.event {
        LifecycleEvent::TurnStart => AgentState::Working,
        LifecycleEvent::SessionStart => if input.source != Some(StartSource::Create) && is_text(
            member(pane, "agent"@),
            "jcode"@,
        ) {
            if is_text(member(pane, "agent_status"@), "working"@) {
                AgentState::Working
            } else if is_text(member(pane, "agent_status"@), "blocked"@) {
                AgentState::Blocked
            } else {
                AgentState::Idle
            }
        } else {
            AgentState::Idle
        },
        _ => AgentState::Idle,
    }
}

/// Whether the pane belongs to another agent (a session end may still release it).
pub open spec fn foreign_agent(input: HookInput, pane: Json) -> bool {
    !(input.event is SessionEnd) && (text_of(member(pane, "agent"@)) matches Some(a) && a
        != "jcode"@)
}

/// The pane of a `pane get` answer.
pub open spec fn pane_of(v: Json) -> Json {
    member(member(v, "result"@), "pane"@)
}

/// The report after the state report was read back from the pane `after`.
pub open spec fn lifecycle_report(input: HookInput, state: AgentState, after: Json) -> LifecycleReport {
    let release = input.event is SessionEnd;
    LifecycleReport {
        status: if release {
            LifecycleStatus::ReleaseRequested
        } else if is_text(member(after, "agent"@), "jcode"@) && is_text(
            member(after, "agent_status"@),
            state_label(state),
        ) {
            LifecycleStatus::Reported
        } else {
            LifecycleStatus::NotConfirmed
        },
        event: input.event,
        state: if release {
            None
        } else {
            Some(state)
        },
        observed_state: member(after, "agent_status"@),
        sequencing: if input.sequence is Some {
            Sequencing::ProducerSequence
        } else {
            Sequencing::BestEffort
        },
        native_identity: None,
    }
}

/// `r` with the outcome of the native identity report.
pub open spec fn with_native(r: LifecycleReport, n: NativeStatus) -> Report {
    Report::Lifecycle(
        LifecycleReport {
            status: r.status,
            event: r.event,
            state: r.state,
            observed_state: r.observed_state,
            sequencing: r.sequencing,
            native_identity: Some(n),
        },
    )
}

/// The report in `m` moves to `stage` and calls Herdr with `args`.
pub open spec fn call(m: Lifecycle, stage: Stage, args: Seq<Seq<char>>) -> (Lifecycle, StepView) {
    (Lifecycle { input: m.input, stage }, StepView::Call(args))
}

/// The report in `m` ends with `r`.
pub open spec fn finish(m: Lifecycle, r: Report) -> (Lifecycle, StepView) {
    (Lifecycle { input: m.input, stage: Stage::Finished }, StepView::Finish(r))
}

/// The next step of a report in `m` given Herdr's reply to the last call. Any failed
/// call makes the report unavailable (and, during the native identity report, its
/// outcome unavailable).
pub open spec fn lifecycle_step(m: Lifecycle, reply: Reply) -> (Lifecycle, StepView) {
    let input = m.input;
    match m.stage {
        Stage::Plugins => match answer(reply) {
            None => finish(m, Report::Unavailable),
            Some(v) => match registration(v) {
                None => finish(m, Report::Unavailable),
                Some(false) => finish(m, Report::Skipped(SkipReason::DisabledOrUnlinked)),
                Some(true) => call(m, Stage::Pane, pane_get_args(input.pane@)),
            },
        },
        Stage::Pane => match answer(reply) {
            None => finish(m, Report::Unavailable),
            Some(v) => if !(pane_of(v) is Object) {
                finish(m, Report::Unavailable)
            } else if foreign_agent(input, pane_of(v)) {
                finish(m, Report::Skipped(SkipReason::AnotherAgent))
            } else {
                let state = state_for(input, pane_of(v));
                call(m, Stage::Reported(state), report_args(input, state))
            },
        },
        Stage::Reported(state) => match answer(reply) {
            None => finish(m, Report::Unavailable),
            Some(_) => call(m, Stage::ReadBack(state), pane_get_args(input.pane@)),
        },
        Stage::ReadBack(state) => match answer(reply) {
            None => finish(m, Report::Unavailable),
            Some(v) => if !(pane_of(v) is Object) {
                finish(m, Report::Unavailable)
            } else if input.event is SessionStart {
                call(m, Stage::NativePlugins(lifecycle_report(input, state, pane_of(v))), plugin_list_args())
            } else {
                finish(m, Report::Lifecycle(lifecycle_report(input, state, pane_of(v))))
            },
        },
        Stage::NativePlugins(r) => match answer(reply) {
            None => finish(m, with_native(r, NativeStatus::Unavailable)),
            Some(v) => match registration(v) {
                None => finish(m, with_native(r, NativeStatus::Unavailable)),
                Some(false) => finish(
                    m,
                    with_native(r, NativeStatus::Skipped(SkipReason::DisabledOrUnlinked)),
                ),
                Some(true) => call(m, Stage::NativePane(r), pane_get_args(input.pane@)),
            },
        },
        Stage::NativePane(r) => match answer(reply) {
            None => finish(m, with_native(r, NativeStatus::Unavailable)),
            Some(v) => if !(pane_of(v) is Object) {
                finish(m, with_native(r, NativeStatus::Unavailable))
            } else if !(member(pane_of(v), "agent_session"@) is Null) && session_identity(v) != Some(
                (input.session@, "herdr:jcode"@, "jcode"@),
            ) {
                finish(m, with_native(r, NativeStatus::IdentityConflict))
            } else {
                call(m, Stage::NativeDetector(r), detector_args())
            },
        },
        Stage::NativeDetector(r) => match answer(reply) {
            None => finish(m, with_native(r, NativeStatus::Unavailable)),
            Some(v) => if !native_support(v) {
                finish(m, with_native(r, NativeStatus::UnsupportedHost))
            } else {
                call(m, Stage::NativeReported(r), native_args(input))
            },
        },
        Stage::NativeReported(r) => match answer(reply) {
            None => finish(m, with_native(r, NativeStatus::Unavailable)),
            Some(_) => call(m, Stage::NativeReadBack(r), pane_get_args(input.pane@)),
        },
        Stage::NativeReadBack(r) => match answer(reply) {
            None => finish(m, with_native(r, NativeStatus::Unavailable)),
            Some(v) => if session_identity(v) == Some((input.session@, "herdr:jcode"@, "jcode"@)) {
                finish(m, with_native(r, NativeStatus::Reported))
            } else {
                finish(m, with_native(r, NativeStatus::NotConfirmed))
            },
        },
        Stage::Finished => finish(m, Report::Unavailable),
    }
}

impl Lifecycle {
    /// A new report: its first call asks whether the plugin is registered and enabled.
    pub fn start(input: HookInput) -> (r: (Lifecycle, Step))
        ensures
            r.0 == (Lifecycle { input, stage: Stage::Plugins }),
            r.1.view() == StepView::Call(plugin_list_args()),
    {
        (Lifecycle { input, stage: Stage::Plugins }, Step::Call(plugin_list_call()))
    }

    /// The next step given Herdr's reply to the last call.
    pub fn step(self, reply: Reply) -> (r: (Lifecycle, Step))
        ensures
            (r.0, r.1.view()) == lifecycle_step(self, reply),
    {
        let ghost m = self;
        let Lifecycle { input, stage } = self;
        let answered = answer_of(reply);
        match stage {
            Stage::Plugins => match answered {
                None => done(input, Report::Unavailable),
                Some(v) => match enabled(&v) {
                    None => done(input, Report::Unavailable),
                    Some(false) => done(input, Report::Skipped(SkipReason::DisabledOrUnlinked)),
                    Some(true) => {
                        let args = pane_get_call(input.pane.as_str());
                        (Lifecycle { input, stage: Stage::Pane }, Step::Call(args))
                    },
                },
            },
            Stage::Pane => match answered {
                None => done(input, Report::Unavailable),
                Some(v) => {
                    let pane = v.take("result").take("pane");
                    if !pane.is_object() {
                        done(input, Report::Unavailable)
                    } else if is_foreign(&input, &pane) {
                        done(input, Report::Skipped(SkipReason::AnotherAgent))
                    } else {
                        let state = choose_state(&input, &pane);
                        let args = report_call(&input, &state);
                        (Lifecycle { input, stage: Stage::Reported(state) }, Step::Call(args))
                    }
                },
            },
            Stage::Reported(state) => match answered {
                None => done(input, Report::Unavailable),
                Some(_) => {
                    let args = pane_get_call(input.pane.as_str());
                    (Lifecycle { input, stage: Stage::ReadBack(state) }, Step::Call(args))
                },
            },
            Stage::ReadBack(state) => match answered {
                None => done(input, Report::Unavailable),
                Some(v) => {
                    let after = v.take("result").take("pane");
                    if !after.is_object() {
                        done(input, Report::Unavailable)
                    } else {
                        let report = make_report(&input, state, after);
                        if matches!(input.event, LifecycleEvent::SessionStart) {
                            (
                                Lifecycle { input, stage: Stage::NativePlugins(report) },
                                Step::Call(plugin_list_call()),
                            )
                        } else {
                            done(input, Report::Lifecycle(report))
                        }
                    }
                },
            },
            Stage::NativePlugins(r) => match answered {
                None => done(input, attach_native(r, NativeStatus::Unavailable)),
                Some(v) => match enabled(&v) {
                    None => done(input, attach_native(r, NativeStatus::Unavailable)),
                    Some(false) => done(
                        input,
                        attach_native(r, NativeStatus::Skipped(SkipReason::DisabledOrUnlinked)),
                    ),
                    Some(true) => {
                        let args = pane_get_call(input.pane.as_str());
                        (Lifecycle { input, stage: Stage::NativePane(r) }, Step::Call(args))
                    },
                },
            },
            Stage::NativePane(r) => match answered {
                None => done(input, attach_native(r, NativeStatus::Unavailable)),
                Some(v) => {
                    let conflict = identity_conflict(&v, input.session.as_str());
                    match conflict {
                        None => done(input, attach_native(r, NativeStatus::Unavailable)),
                        Some(true) => done(input, attach_native(r, NativeStatus::IdentityConflict)),
                        Some(false) => (
                            Lifecycle { input, stage: Stage::NativeDetector(r) },
                            Step::Call(detector_call()),
                        ),
                    }
                },
            },
            Stage::NativeDetector(r) => match answered {
                None => done(input, attach_native(r, NativeStatus::Unavailable)),
                Some(v) => if !native_detector(&v) {
                    done(input, attach_native(r, NativeStatus::UnsupportedHost))
                } else {
                    let args = native_call(&input);
                    (Lifecycle { input, stage: Stage::NativeReported(r) }, Step::Call(args))
                },
            },
            Stage::NativeReported(r) => match answered {
                None => done(input, attach_native(r, NativeStatus::Unavailable)),
                Some(_) => {
                    let args = pane_get_call(input.pane.as_str());
                    (Lifecycle { input, stage: Stage::NativeReadBack(r) }, Step::Call(args))
                },
            },
            Stage::NativeReadBack(r) => match answered {
                None => done(input, attach_native(r, NativeStatus::Unavailable)),
                Some(v) => if session_is(&v, input.session.as_str()) {
                    done(input, attach_native(r, NativeStatus::Reported))
                } else {
                    done(input, attach_native(r, NativeStatus::NotConfirmed))
                },
            },
            Stage::Finished => done(input, Report::Unavailable),
        }
    }
}

/// Ends a report with `r`.
fn done(input: HookInput, r: Report) -> (x: (Lifecycle, Step))
    ensures
        x.0 == (Lifecycle { input, stage: Stage::Finished }),
        x.1.view() == StepView::Finish(r),
{
    (Lifecycle { input, stage: Stage::Finished }, Step::Finish(r))
}

/// For a `pane get` answer: `None` when it holds no pane object, otherwise whether the
/// pane holds an agent session other than `session` recorded for Jcode by this plugin.
fn identity_conflict(v: &Json, session: &str) -> (r: Option<bool>)
    ensures
        match r {
            None => !(pane_of(*v) is Object),
            Some(c) => pane_of(*v) is Object && c == (!(member(pane_of(*v), "agent_session"@) is Null)
                && session_identity(*v) != Some((session@, "herdr:jcode"@, "jcode"@))),
        },
{
    let pane = match v.get("result") {
        Some(x) => match x.get("pane") {
            Some(p) => p,
            None => return None,
        },
        None => return None,
    };
    if !pane.is_object() {
        return None;
    }
    Some(!pane.member_is_null("agent_session") && !session_is(v, session))
}

/// Whether the pane belongs to another agent.
fn is_foreign(input: &HookInput, pane: &Json) -> (r: bool)
    ensures
        r == foreign_agent(*input, *pane),
{
    if matches!(input.event, LifecycleEvent::SessionEnd) {
        return false;
    }
    match pane.get("agent") {
        Some(a) => match a.as_text() {
            Some(t) => !same_text(t, "jcode"),
            None => false,
        },
        None => false,
    }
}

/// The state to report.
fn choose_state(input: &HookInput, pane: &Json) -> (r: AgentState)
    ensures
        r == state_for(*input, *pane),
{
    match input.event {
        LifecycleEvent::TurnStart => AgentState::Working,
        LifecycleEvent::SessionStart => {
            let created = matches!(input.source, Some(StartSource::Create));
            if !created && pane.member_is("agent", "jcode") {
                if pane.member_is("agent_status", "working") {
                    AgentState::Working
                } else if pane.member_is("agent_status", "blocked") {
                    AgentState::Blocked
                } else {
                    AgentState::Idle
                }
            } else {
                AgentState::Idle
            }
        },
        _ => AgentState::Idle,
    }
}

/// The arguments of the state report.
fn report_call(input: &HookInput, state: &AgentState) -> (r: Vec<String>)
    ensures
        words(r@) == report_args(*input, *state),
{
    let release = matches!(input.event, LifecycleEvent::SessionEnd);
    let mut v = Vec::new();
    push_word(&mut v, "pane");
    push_word(
        &mut v,
        if release {
            "release-agent"
        } else {
            "report-agent"
        },
    );
    push_word(&mut v, input.pane.as_str());
    push_word(&mut v, "--source");
    push_word(&mut v, STATE_SOURCE);
    push_word(&mut v, "--agent");
    push_word(&mut v, "jcode");
    if !release {
        push_word(&mut v, "--state");
        push_word(&mut v, state.label());
        push_word(&mut v, "--agent-session-id");
        push_word(&mut v, input.session.as_str());
    }
    match &input.sequence {
        Some(s) => {
            push_word(&mut v, "--seq");
            push_word(&mut v, s.as_str());
        },
        None => {},
    }
    assert(words(v@) =~= report_args(*input, *state));
    v
}

/// The arguments of the native identity report.
fn native_call(input: &HookInput) -> (r: Vec<String>)
    ensures
        words(r@) == native_args(*input),
{
    let mut v = Vec::new();
    push_word(&mut v, "pane");
    push_word(&mut v, "report-agent-session");
    push_word(&mut v, input.pane.as_str());
    push_word(&mut v, "--source");
    push_word(&mut v, "herdr:jcode");
    push_word(&mut v, "--agent");
    push_word(&mut v, "jcode");
    push_word(&mut v, "--agent-session-id");
    push_word(&mut v, input.session.as_str());
    push_word(&mut v, "--session-start-source");
    push_word(
        &mut v,
        if matches!(input.source, Some(StartSource::Resume)) {
            "resume"
        } else {
            "startup"
        },
    );
    assert(words(v@) =~= native_args(*input));
    v
}

/// The report after the read-back of the pane `after`.
fn make_report(input: &HookInput, state: AgentState, after: Json) -> (r: LifecycleReport)
    ensures
        r == lifecycle_report(*input, state, after),
{
    let release = matches!(input.event, LifecycleEvent::SessionEnd);
    let status = if release {
        LifecycleStatus::ReleaseRequested
    } else if after.member_is("agent", "jcode") && after.member_is("agent_status", state.label()) {
        LifecycleStatus::Reported
    } else {
        LifecycleStatus::NotConfirmed
    };
    let event = match input.event {
        LifecycleEvent::SessionStart => LifecycleEvent::SessionStart,
        LifecycleEvent::TurnStart => LifecycleEvent::TurnStart,
        LifecycleEvent::TurnEnd => LifecycleEvent::TurnEnd,
        LifecycleEvent::SessionEnd => LifecycleEvent::SessionEnd,
    };
    let sequencing = if input.sequence.is_some() {
        Sequencing::ProducerSequence
    } else {
        Sequencing::BestEffort
    };
    LifecycleReport {
        status,
        event,
        state: if release {
            None
        } else {
            Some(state)
        },
        observed_state: after.take("agent_status"),
        sequencing,
        native_identity: None,
    }
}

/// `r` with the outcome of the native identity report.
fn attach_native(r: LifecycleReport, n: NativeStatus) -> (x: Report)
    ensures
        x == with_native(r, n),
{
    Report::Lifecycle(
        LifecycleReport {
            status: r.status,
            event: r.event,
            state: r.state,
            observed_state: r.observed_state,
            sequencing: r.sequencing,
            native_identity: Some(n),
        },
    )
}

/// Whether every character of `s` is an ASCII digit.
pub open spec fn all_digits(s: Seq<char>) -> bool {
    forall|i: int| 0 <= i < s.len() ==> '0' <= #[trigger] s[i] <= '9'
}

/// The number a string of decimal digits denotes.
pub open spec fn digits_value(s: Seq<char>) -> int
    decreases s.len(),
{
    if s.len() == 0 {
        0
    } else {
        digits_value(s.drop_last()) * 10 + (s.last() as int - '0' as int)
    }
}

/// A longer run of digits denotes at least as much as its beginning.
proof fn lemma_digits_grow(s: Seq<char>, i: int)
    requires
        0 <= i <= s.len(),
        all_digits(s),
    ensures
        digits_value(s.take(i)) <= digits_value(s),
        digits_value(s) >= 0,
    decreases s.len(),
{
    if s.len() > 0 {
        let p = s.drop_last();
        assert(all_digits(p)) by {
            assert forall|j: int| 0 <= j < p.len() implies '0' <= #[trigger] p[j] <= '9' by {
                assert(p[j] == s[j]);
            }
        }
        assert('0' <= s[s.len() - 1] <= '9');
        if i < s.len() {
            lemma_digits_grow(p, i);
            assert(p.take(i) =~= s.take(i));
        } else {
            lemma_digits_grow(p, 0);
            assert(s.take(i) =~= s);
        }
    } else {
        assert(s.take(i) =~= s);
    }
}

/// Whether the number a string of decimal digits denotes fits in a `u64` (what
/// `str::parse::<u64>` accepts of such a string).
fn fits_u64(s: &str) -> (r: bool)
    requires
        s@.len() > 0,
        all_digits(s@),
    ensures
        r == (digits_value(s@) <= u64::MAX),
{
    let n = s.unicode_len();
    let mut value: u64 = 0;
    let mut i: usize = 0;
    while i < n
        invariant
            n == s@.len(),
            i <= n,
            all_digits(s@),
            value == digits_value(s@.take(i as int)),
        decreases n - i,
    {
        let c = s.get_char(i);
        assert(s@.take(i + 1).drop_last() =~= s@.take(i as int));
        assert(s@.take(i + 1).last() == c);
        assert('0' <= c <= '9');
        let d = ((c as u32) - ('0' as u32)) as u64;
        match value.checked_mul(10) {
            Some(t) => match t.checked_add(d) {
                Some(v) => {
                    value = v;
                },
                None => {
                    proof {
                        lemma_digits_grow(s@, i + 1);
                    }
                    return false;
                },
            },
            None => {
                proof {
                    lemma_digits_grow(s@, i + 1);
                    lemma_digits_grow(s@.take(i as int), 0);
                }
                return false;
            },
        }
        i = i + 1;
    }
    assert(s@.take(n as int) =~= s@);
    true
}

/// Whether `t` is a usable identifier from the environment: non-empty, at most 4096
/// bytes, without NUL.
pub open spec fn usable(t: Seq<char>) -> bool {
    t.len() > 0 && encode_utf8(t).len() <= 4096 && !t.contains('\0')
}

/// Whether an optional environment value is usable.
pub open spec fn usable_value(v: Option<String>) -> bool {
    match v {
        Some(s) => usable(s@),
        None => false,
    }
}

/// Whether a producer sequence number is valid: non-empty decimal digits that fit in a
/// `u64`.
pub open spec fn valid_sequence(t: Seq<char>) -> bool {
    t.len() > 0 && all_digits(t) && digits_value(t) <= u64::MAX
}

/// The event named `t`, if it is one of the four.
pub open spec fn event_named(t: Seq<char>) -> Option<LifecycleEvent> {
    if t == "session_start"@ {
        Some(LifecycleEvent::SessionStart)
    } else if t == "turn_start"@ {
        Some(LifecycleEvent::TurnStart)
    } else if t == "turn_end"@ {
        Some(LifecycleEvent::TurnEnd)
    } else if t == "session_end"@ {
        Some(LifecycleEvent::SessionEnd)
    } else {
        None
    }
}

/// The start source named `t`, if it is one of the three.
pub open spec fn source_named(t: Seq<char>) -> Option<StartSource> {
    if t == "create"@ {
        Some(StartSource::Create)
    } else if t == "attach"@ {
        Some(StartSource::Attach)
    } else if t == "resume"@ {
        Some(StartSource::Resume)
    } else {
        None
    }
}

/// What a hook report makes of its environment: `HERDR_ENV`, the hook's event, source and
/// sequence (`Some(None)` for a value that is not Unicode), the pane, session and socket,
/// and whether a Herdr binary is known. It proceeds only inside Herdr, for a known event
/// (and, on session start, a known source), a valid sequence if any, usable identifiers
/// and a known binary, checked in that order.
pub open spec fn hook_gate(
    herdr_env: Option<String>,
    event: String,
    source: String,
    sequence: Option<Option<String>>,
    pane: Option<String>,
    session: Option<String>,
    socket: Option<String>,
    has_bin: bool,
) -> Result<HookInput, Report> {
    if !(herdr_env matches Some(e) && e@ == "1"@) {
        Err(Report::Skipped(SkipReason::OutsideHerdr))
    } else if event_named(event@) is None {
        Err(Report::Skipped(SkipReason::UnsupportedEvent))
    } else if event_named(event@) == Some(LifecycleEvent::SessionStart) && source_named(source@) is None {
        Err(Report::Skipped(SkipReason::UnsupportedSource))
    } else if sequence matches Some(q) && !(q matches Some(t) && valid_sequence(t@)) {
        Err(Report::Skipped(SkipReason::InvalidSequence))
    } else if !(usable_value(pane) && usable_value(session) && usable_value(socket)) {
        Err(Report::Skipped(SkipReason::MissingEnv))
    } else if !has_bin {
        Err(Report::Unavailable)
    } else {
        Ok(
            HookInput {
                pane: pane->Some_0,
                session: session->Some_0,
                event: event_named(event@)->Some_0,
                source: if event_named(event@) == Some(LifecycleEvent::SessionStart) {
                    source_named(source@)
                } else {
                    None
                },
                sequence: match sequence {
                    Some(q) => q,
                    None => None,
                },
            },
        )
    }
}

/// The event named `t`.
fn parse_event(t: &str) -> (r: Option<LifecycleEvent>)
    ensures
        r == event_named(t@),
{
    if same_text(t, "session_start") {
        Some(LifecycleEvent::SessionStart)
    } else if same_text(t, "turn_start") {
        Some(LifecycleEvent::TurnStart)
    } else if same_text(t, "turn_end") {
        Some(LifecycleEvent::TurnEnd)
    } else if same_text(t, "session_end") {
        Some(LifecycleEvent::SessionEnd)
    } else {
        None
    }
}

/// The start source named `t`.
fn parse_source(t: &str) -> (r: Option<StartSource>)
    ensures
        r == source_named(t@),
{
    if same_text(t, "create") {
        Some(StartSource::Create)
    } else if same_text(t, "attach") {
        Some(StartSource::Attach)
    } else if same_text(t, "resume") {
        Some(StartSource::Resume)
    } else {
        None
    }
}

/// Whether `t` is a valid producer sequence number.
fn sequence_valid(t: &str) -> (r: bool)
    ensures
        r == valid_sequence(t@),
{
    let n = t.unicode_len();
    if n == 0 {
        return false;
    }
    let mut i: usize = 0;
    while i < n
        invariant
            n == t@.len(),
            i <= n,
            forall|j: int| 0 <= j < i ==> '0' <= #[trigger] t@[j] <= '9',
        decreases n - i,
    {
        let c = t.get_char(i);
        if !('0' <= c && c <= '9') {
            return false;
        }
        i = i + 1;
    }
    fits_u64(t)
}

/// Whether `t` is a usable identifier.
pub fn usable_text(t: &str) -> (r: bool)
    ensures
        r == usable(t@),
{
    !t.is_empty() && t.as_bytes().len() <= 4096 && !has_nul(t)
}

/// Whether `t` contains NUL.
fn has_nul(t: &str) -> (r: bool)
    ensures
        r == t@.contains('\0'),
{
    let n = t.unicode_len();
    let mut i: usize = 0;
    while i < n
        invariant
            n == t@.len(),
            i <= n,
            forall|j: int| 0 <= j < i ==> t@[j] != '\0',
        decreases n - i,
    {
        if t.get_char(i) == '\0' {
            return true;
        }
        i = i + 1;
    }
    false
}

/// Whether an optional environment value is usable.
fn usable_option(v: &Option<String>) -> (r: bool)
    ensures
        r == usable_value(*v),
{
    match v {
        Some(s) => usable_text(s.as_str()),
        None => false,
    }
}

/// Checks a hook report's environment, giving its validated input or the report that
/// ends it at once.
pub fn hook_input(
    herdr_env: Option<String>,
    event: String,
    source: String,
    sequence: Option<Option<String>>,
    pane: Option<String>,
    session: Option<String>,
    socket: Option<String>,
    has_bin: bool,
) -> (r: Result<HookInput, Report>)
    ensures
        r == hook_gate(herdr_env, event, source, sequence, pane, session, socket, has_bin),
{
    let inside = match &herdr_env {
        Some(e) => same_text(e.as_str(), "1"),
        None => false,
    };
    if !inside {
        return Err(Report::Skipped(SkipReason::OutsideHerdr));
    }
    let ev = match parse_event(event.as_str()) {
        Some(e) => e,
        None => return Err(Report::Skipped(SkipReason::UnsupportedEvent)),
    };
    let starting = matches!(ev, LifecycleEvent::SessionStart);
    let src = parse_source(source.as_str());
    if starting && src.is_none() {
        return Err(Report::Skipped(SkipReason::UnsupportedSource));
    }
    let seq = match sequence {
        None => None,
        Some(None) => return Err(Report::Skipped(SkipReason::InvalidSequence)),
        Some(Some(t)) => if sequence_valid(t.as_str()) {
            Some(t)
        } else {
            return Err(Report::Skipped(SkipReason::InvalidSequence));
        },
    };
    if !(usable_option(&pane) && usable_option(&session) && usable_option(&socket)) {
        return Err(Report::Skipped(SkipReason::MissingEnv));
    }
    if !has_bin {
        return Err(Report::Unavailable);
    }
    let pane = pane.unwrap();
    let session = session.unwrap();
    Ok(
        HookInput {
            pane,
            session,
            event: ev,
            source: if starting {
                src
            } else {
                None
            },
            sequence: seq,
        },
    )
}

} // verus!

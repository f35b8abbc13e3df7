use herdr_jcode::herdr::{
    answer_of, enabled, forwarded_env, herdr_bin, native_detector, output_accepted, session_fields,
    Reply, MAX_OUTPUT, PLUGIN_ID,
};
use herdr_jcode::json::Json;
use herdr_jcode::lifecycle::{
    hook_input, usable_text, AgentState, HookInput, Lifecycle, LifecycleEvent, LifecycleStatus,
    NativeStatus, Report, Sequencing, SkipReason, StartSource, Step,
};

fn text(t: &str) -> Json {
    Json::Text(t.to_string())
}

fn obj(members: Vec<(&str, Json)>) -> Json {
    Json::Object(members.into_iter().map(|(k, v)| (k.to_string(), v)).collect())
}

fn plugins(entries: Vec<Json>) -> Json {
    obj(vec![("result", obj(vec![("plugins", Json::Array(entries))]))])
}

fn reply(json: Option<Json>) -> Reply {
    Reply { output: json.as_ref().map(|_| b"{}".to_vec()), json }
}

#[test]
fn public_pane_session_uses_kind_and_value() {
    let response = obj(vec![(
        "result",
        obj(vec![(
            "pane",
            obj(vec![(
                "agent_session",
                obj(vec![
                    ("kind", text("id")),
                    ("value", text("session-1")),
                    ("source", text("herdr:jcode")),
                    ("agent", text("jcode")),
                ]),
            )]),
        )]),
    )]);
    assert_eq!(session_fields(&response), Some(("session-1", "herdr:jcode", "jcode")));
}

#[test]
fn session_of_another_kind_is_not_read() {
    let response = obj(vec![(
        "result",
        obj(vec![(
            "pane",
            obj(vec![(
                "agent_session",
                obj(vec![
                    ("kind", text("name")),
                    ("value", text("session-1")),
                    ("source", text("herdr:jcode")),
                    ("agent", text("jcode")),
                ]),
            )]),
        )]),
    )]);
    assert_eq!(session_fields(&response), None);
}

#[test]
fn unknown_agent_json_is_not_native_support() {
    assert!(!native_detector(&obj(vec![
        ("agent", text("jcode")),
        ("fallback_reason", text("unknown_agent")),
        ("manifest_version", Json::Null),
        ("manifest_source", Json::Null),
    ])));
    assert!(native_detector(&obj(vec![
        ("agent", text("jcode")),
        ("manifest_version", text("1")),
        ("manifest_source", text("bundled")),
    ])));
}

#[test]
fn registration_requires_exact_id_and_enabled() {
    assert_eq!(
        enabled(&plugins(vec![obj(vec![("plugin_id", text(PLUGIN_ID)), ("enabled", Json::Bool(true))])])),
        Some(true)
    );
    assert_eq!(
        enabled(&plugins(vec![obj(vec![("plugin_id", text(PLUGIN_ID)), ("enabled", Json::Bool(false))])])),
        Some(false)
    );
    assert_eq!(enabled(&plugins(vec![])), Some(false));
    assert_eq!(enabled(&obj(vec![("error", obj(vec![]))])), None);
}

#[test]
fn registration_of_another_plugin_does_not_count() {
    assert_eq!(
        enabled(&plugins(vec![obj(vec![("plugin_id", text("other")), ("enabled", Json::Bool(true))])])),
        Some(false)
    );
}

#[test]
fn answers_with_an_error_are_refused() {
    assert!(answer_of(reply(Some(obj(vec![("error", obj(vec![]))])))).is_none());
    assert!(answer_of(reply(None)).is_none());
    assert!(answer_of(reply(Some(obj(vec![("result", Json::Null)])))).is_some());
}

#[test]
fn environment_passed_to_herdr_is_filtered() {
    for name in ["PATH", "HOME", "LANG", "TERM", "XDG_RUNTIME_DIR", "HERDR_SOCKET_PATH"] {
        assert!(forwarded_env(name), "{name}");
    }
    for name in ["JCODE_HOOK_PAYLOAD", "OPENAI_API_KEY", "XDG", "PATHS", "HERDR"] {
        assert!(!forwarded_env(name), "{name}");
    }
}

#[test]
fn output_limit_and_binary() {
    assert!(output_accepted(true, MAX_OUTPUT));
    assert!(!output_accepted(true, MAX_OUTPUT + 1));
    assert!(!output_accepted(false, 0));
    assert_eq!(herdr_bin(Some(String::new())), None);
    assert_eq!(herdr_bin(None), None);
    assert_eq!(herdr_bin(Some("/bin/herdr".to_string())), Some("/bin/herdr".to_string()));
}

fn env_input(
    herdr_env: Option<&str>,
    event: &str,
    source: &str,
    sequence: Option<Option<&str>>,
    has_bin: bool,
) -> Result<HookInput, Report> {
    hook_input(
        herdr_env.map(String::from),
        event.to_string(),
        source.to_string(),
        sequence.map(|s| s.map(String::from)),
        Some("w1:p1".to_string()),
        Some("session".to_string()),
        Some("/tmp/herdr.sock".to_string()),
        has_bin,
    )
}

#[test]
fn hook_input_skips_in_order() {
    assert!(matches!(
        env_input(None, "turn_start", "", None, true),
        Err(Report::Skipped(SkipReason::OutsideHerdr))
    ));
    assert!(matches!(
        env_input(Some("0"), "turn_start", "", None, true),
        Err(Report::Skipped(SkipReason::OutsideHerdr))
    ));
    assert!(matches!(
        env_input(Some("1"), "compact", "", None, true),
        Err(Report::Skipped(SkipReason::UnsupportedEvent))
    ));
    assert!(matches!(
        env_input(Some("1"), "session_start", "unknown", None, true),
        Err(Report::Skipped(SkipReason::UnsupportedSource))
    ));
    for bad in [Some(""), Some("12a"), Some("18446744073709551616"), None] {
        assert!(matches!(
            env_input(Some("1"), "turn_end", "", Some(bad), true),
            Err(Report::Skipped(SkipReason::InvalidSequence))
        ));
    }
    assert!(matches!(
        env_input(Some("1"), "turn_end", "", None, false),
        Err(Report::Unavailable)
    ));
    let missing = hook_input(
        Some("1".to_string()),
        "turn_end".to_string(),
        String::new(),
        None,
        Some("w1:p1".to_string()),
        Some(String::new()),
        Some("/tmp/s".to_string()),
        true,
    );
    assert!(matches!(missing, Err(Report::Skipped(SkipReason::MissingEnv))));
}

#[test]
fn hook_input_accepts_a_valid_environment() {
    let input = env_input(Some("1"), "session_start", "resume", Some(Some("18446744073709551615")), true)
        .ok()
        .unwrap();
    assert_eq!(input.pane, "w1:p1");
    assert_eq!(input.session, "session");
    assert!(matches!(input.event, LifecycleEvent::SessionStart));
    assert!(matches!(input.source, Some(StartSource::Resume)));
    assert_eq!(input.sequence.as_deref(), Some("18446744073709551615"));
    let turn = env_input(Some("1"), "turn_end", "resume", None, true).ok().unwrap();
    assert!(turn.source.is_none());
}

#[test]
fn identifiers_must_be_usable() {
    assert!(usable_text("w1:p1"));
    assert!(!usable_text(""));
    assert!(!usable_text("a\0b"));
    assert!(usable_text(&"x".repeat(4096)));
    assert!(!usable_text(&"x".repeat(4097)));
    assert!(!usable_text(&"é".repeat(2049)));
}

/// A Herdr host that answers the reporter's calls as the real CLI does.
struct Host {
    mode: &'static str,
    agent: Option<(String, String)>,
    session: Option<Json>,
    calls: Vec<Vec<String>>,
}

impl Host {
    fn new(mode: &'static str) -> Host {
        Host { mode, agent: None, session: None, calls: Vec::new() }
    }

    fn pane(&self) -> Json {
        let mut members = vec![("pane_id".to_string(), text("w1:p1"))];
        if let Some((agent, status)) = &self.agent {
            members.push(("agent".to_string(), text(agent)));
            members.push(("agent_status".to_string(), text(status)));
        }
        if self.mode == "conflict" {
            members.push((
                "agent_session".to_string(),
                obj(vec![
                    ("kind", text("id")),
                    ("value", text("other-session")),
                    ("source", text("herdr:jcode")),
                    ("agent", text("jcode")),
                ]),
            ));
        } else if let (Some(s), false) = (&self.session, self.mode == "not_confirmed") {
            members.push(("agent_session".to_string(), clone_json(s)));
        }
        obj(vec![("result", obj(vec![("pane", Json::Object(members))]))])
    }

    fn answer(&mut self, args: &[String]) -> Option<Json> {
        self.calls.push(args.to_vec());
        let a: Vec<&str> = args.iter().map(|s| s.as_str()).collect();
        match (a[0], a[1]) {
            ("plugin", "list") => Some(plugins(vec![obj(vec![
                ("plugin_id", text(PLUGIN_ID)),
                ("enabled", Json::Bool(self.mode != "disabled")),
            ])])),
            ("pane", "get") => Some(self.pane()),
            ("pane", "report-agent") => {
                if self.mode == "failing" {
                    return None;
                }
                let state = a[a.iter().position(|x| *x == "--state").unwrap() + 1];
                self.agent = Some(("jcode".to_string(), state.to_string()));
                Some(obj(vec![("result", obj(vec![("type", text("ok"))]))]))
            },
            ("pane", "release-agent") => {
                self.agent = None;
                Some(obj(vec![("result", obj(vec![("type", text("ok"))]))]))
            },
            ("agent", "explain") => {
                let unsupported = self.mode == "unsupported";
                Some(obj(vec![
                    ("agent", text("jcode")),
                    ("manifest_version", if unsupported { Json::Null } else { text("1") }),
                    ("manifest_source", if unsupported { Json::Null } else { text("bundled") }),
                    (
                        "fallback_reason",
                        if unsupported { text("unknown_agent") } else { Json::Null },
                    ),
                ]))
            },
            ("pane", "report-agent-session") => {
                let session = a[a.iter().position(|x| *x == "--agent-session-id").unwrap() + 1];
                self.session = Some(obj(vec![
                    ("kind", text("id")),
                    ("value", text(session)),
                    ("source", text("herdr:jcode")),
                    ("agent", text("jcode")),
                ]));
                Some(obj(vec![("result", obj(vec![("type", text("ok"))]))]))
            },
            _ => None,
        }
    }
}

fn clone_json(j: &Json) -> Json {
    match j {
        Json::Null => Json::Null,
        Json::Bool(b) => Json::Bool(*b),
        Json::Number(n) => Json::Number(n.clone()),
        Json::Text(t) => Json::Text(t.clone()),
        Json::Array(a) => Json::Array(a.iter().map(clone_json).collect()),
        Json::Object(m) => Json::Object(m.iter().map(|(k, v)| (k.clone(), clone_json(v))).collect()),
    }
}

fn input(event: LifecycleEvent, source: Option<StartSource>, sequence: Option<&str>) -> HookInput {
    HookInput {
        pane: "w1:p1".to_string(),
        session: "opaque id with spaces ' and quotes\"".to_string(),
        event,
        source,
        sequence: sequence.map(String::from),
    }
}

fn run(host: &mut Host, input: HookInput) -> Report {
    let (mut m, mut step) = Lifecycle::start(input);
    loop {
        match step {
            Step::Finish(r) => return r,
            Step::Call(args) => {
                let answer = host.answer(&args);
                let (next, s) = m.step(reply(answer));
                m = next;
                step = s;
            },
        }
    }
}

fn native(r: &Report) -> Option<&NativeStatus> {
    match r {
        Report::Lifecycle(l) => l.native_identity.as_ref(),
        _ => None,
    }
}

#[test]
fn native_identity_is_reported_after_readback_with_mapped_sources() {
    for (source, expected) in [
        (StartSource::Create, "startup"),
        (StartSource::Attach, "startup"),
        (StartSource::Resume, "resume"),
    ] {
        let mut host = Host::new("supported");
        let r = run(&mut host, input(LifecycleEvent::SessionStart, Some(source), None));
        assert!(matches!(native(&r), Some(NativeStatus::Reported)));
        let report = host.calls.iter().find(|v| v[1] == "report-agent-session").unwrap();
        assert_eq!(report.last().unwrap(), expected);
        match r {
            Report::Lifecycle(l) => {
                assert!(matches!(l.status, LifecycleStatus::Reported));
                assert!(matches!(l.state, Some(AgentState::Idle)));
            },
            _ => panic!("lifecycle report expected"),
        }
    }
}

#[test]
fn native_identity_without_readback_is_not_confirmed() {
    let mut host = Host::new("not_confirmed");
    let r = run(&mut host, input(LifecycleEvent::SessionStart, Some(StartSource::Create), None));
    assert!(matches!(native(&r), Some(NativeStatus::NotConfirmed)));
}

#[test]
fn unsupported_host_gets_no_native_identity() {
    let mut host = Host::new("unsupported");
    let r = run(&mut host, input(LifecycleEvent::SessionStart, Some(StartSource::Create), None));
    assert!(matches!(native(&r), Some(NativeStatus::UnsupportedHost)));
    assert!(!host.calls.iter().any(|v| v[1] == "report-agent-session"));
}

#[test]
fn native_identity_conflict_is_not_overwritten() {
    let mut host = Host::new("conflict");
    let r = run(&mut host, input(LifecycleEvent::SessionStart, Some(StartSource::Create), None));
    assert!(matches!(native(&r), Some(NativeStatus::IdentityConflict)));
    assert!(!host.calls.iter().any(|v| v[1] == "report-agent-session"));
}

#[test]
fn disabled_plugin_never_reads_or_mutates_a_pane() {
    let mut host = Host::new("disabled");
    let r = run(&mut host, input(LifecycleEvent::SessionStart, Some(StartSource::Create), None));
    assert!(matches!(r, Report::Skipped(SkipReason::DisabledOrUnlinked)));
    assert_eq!(host.calls.len(), 1);
}

#[test]
fn turn_events_report_working_then_idle_with_sequence() {
    let mut host = Host::new("supported");
    let r = run(&mut host, input(LifecycleEvent::TurnStart, None, Some("7")));
    match r {
        Report::Lifecycle(l) => {
            assert!(matches!(l.status, LifecycleStatus::Reported));
            assert!(matches!(l.state, Some(AgentState::Working)));
            assert!(matches!(l.sequencing, Sequencing::ProducerSequence));
            assert!(l.native_identity.is_none());
        },
        _ => panic!("lifecycle report expected"),
    }
    let report = &host.calls[2];
    assert_eq!(
        report,
        &vec![
            "pane",
            "report-agent",
            "w1:p1",
            "--source",
            "custom:leonardoacosta.herdr-jcode",
            "--agent",
            "jcode",
            "--state",
            "working",
            "--agent-session-id",
            "opaque id with spaces ' and quotes\"",
            "--seq",
            "7",
        ]
    );
    let r = run(&mut host, input(LifecycleEvent::TurnEnd, None, None));
    match r {
        Report::Lifecycle(l) => {
            assert!(matches!(l.state, Some(AgentState::Idle)));
            assert!(matches!(l.sequencing, Sequencing::BestEffort));
        },
        _ => panic!("lifecycle report expected"),
    }
}

#[test]
fn resume_keeps_a_working_state() {
    let mut host = Host::new("supported");
    host.agent = Some(("jcode".to_string(), "working".to_string()));
    let r = run(&mut host, input(LifecycleEvent::SessionStart, Some(StartSource::Resume), None));
    match r {
        Report::Lifecycle(l) => assert!(matches!(l.state, Some(AgentState::Working))),
        _ => panic!("lifecycle report expected"),
    }
    let mut host = Host::new("supported");
    host.agent = Some(("jcode".to_string(), "working".to_string()));
    let r = run(&mut host, input(LifecycleEvent::SessionStart, Some(StartSource::Create), None));
    match r {
        Report::Lifecycle(l) => assert!(matches!(l.state, Some(AgentState::Idle))),
        _ => panic!("lifecycle report expected"),
    }
}

#[test]
fn another_agent_is_left_alone_except_on_release() {
    let mut host = Host::new("supported");
    host.agent = Some(("aider".to_string(), "working".to_string()));
    let r = run(&mut host, input(LifecycleEvent::TurnStart, None, None));
    assert!(matches!(r, Report::Skipped(SkipReason::AnotherAgent)));
    assert_eq!(host.calls.len(), 2);
    let r = run(&mut host, input(LifecycleEvent::SessionEnd, None, None));
    match r {
        Report::Lifecycle(l) => {
            assert!(matches!(l.status, LifecycleStatus::ReleaseRequested));
            assert!(l.state.is_none());
        },
        _ => panic!("lifecycle report expected"),
    }
    assert_eq!(host.calls[4][1], "release-agent");
    assert!(!host.calls[4].iter().any(|a| a == "--state"));
}

#[test]
fn a_failed_call_makes_the_report_unavailable() {
    let mut host = Host::new("failing");
    let r = run(&mut host, input(LifecycleEvent::TurnEnd, None, None));
    assert!(matches!(r, Report::Unavailable));
}

#[test]
fn labels_are_the_report_words() {
    assert_eq!(LifecycleEvent::SessionStart.label(), "session_start");
    assert_eq!(AgentState::Blocked.label(), "blocked");
    assert_eq!(SkipReason::MissingEnv.label(), "missing_env");
    assert_eq!(LifecycleStatus::NotConfirmed.label(), "not_confirmed");
    assert_eq!(Sequencing::BestEffort.label(), "best_effort");
    assert_eq!(NativeStatus::IdentityConflict.label(), "identity_conflict");
}

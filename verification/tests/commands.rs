use herdr_jcode::cli::{
    edit_status, override_message, override_var, parse_args, CliError, Command, HELP,
};
use herdr_jcode::doctor::{version_text, Doctor, DoctorReport, DoctorStatus, DoctorStep};
use herdr_jcode::herdr::{Reply, PLUGIN_ID};
use herdr_jcode::json::Json;
use herdr_jcode::lifecycle::SkipReason;
use herdr_jcode::model::{model_input, model_short_name, ModelInput, ModelReport, ModelReporter, ModelStep};
use herdr_jcode::text::trim_text;

fn text(t: &str) -> Json {
    Json::Text(t.to_string())
}

fn obj(members: Vec<(&str, Json)>) -> Json {
    Json::Object(members.into_iter().map(|(k, v)| (k.to_string(), v)).collect())
}

fn registered(on: bool) -> Json {
    obj(vec![(
        "result",
        obj(vec![(
            "plugins",
            Json::Array(vec![obj(vec![("plugin_id", text(PLUGIN_ID)), ("enabled", Json::Bool(on))])]),
        )]),
    )])
}

fn reply(json: Option<Json>) -> Reply {
    Reply { output: json.as_ref().map(|_| b"{}".to_vec()), json }
}

fn args(a: &[&str]) -> Vec<String> {
    a.iter().map(|s| s.to_string()).collect()
}

#[test]
fn model_short_name_drops_a_date_suffix() {
    assert_eq!(model_short_name("mistral-large-2-20250219"), "mistral-large-2");
    assert_eq!(model_short_name("  mistral-large-2-20250219\n"), "mistral-large-2");
    assert_eq!(model_short_name("deepseek-chat"), "deepseek-chat");
    assert_eq!(model_short_name("gpt-5.1"), "gpt-5.1");
    assert_eq!(model_short_name("a-b-20250219"), "a-b-20250219");
    assert_eq!(model_short_name("a-b-c-12345"), "a-b-c-12345");
    assert_eq!(model_short_name("a-b-c-2025x219"), "a-b-c-2025x219");
    assert_eq!(model_short_name("a-b-c-d-123456"), "a-b-c-d");
    assert_eq!(model_short_name(""), "");
}

#[test]
fn trim_matches_str_trim() {
    for s in ["", "  ", " a b ", "\u{a0}x\u{2003}", "\tx\n", "x"] {
        assert_eq!(trim_text(s), s.trim());
    }
}

#[test]
fn model_input_skips_in_order() {
    let pane = || Some("w1:p1".to_string());
    assert!(matches!(
        model_input(None, "m".to_string(), pane(), true, None),
        Err(ModelReport::Skipped(SkipReason::OutsideHerdr))
    ));
    assert!(matches!(
        model_input(Some("1".to_string()), String::new(), pane(), true, None),
        Err(ModelReport::Skipped(SkipReason::NoModelInfo))
    ));
    assert!(matches!(
        model_input(Some("1".to_string()), "m".to_string(), Some(String::new()), true, None),
        Err(ModelReport::Skipped(SkipReason::MissingPaneId))
    ));
    assert!(matches!(
        model_input(Some("1".to_string()), "m".to_string(), pane(), false, None),
        Err(ModelReport::Unavailable)
    ));
    let ok = model_input(Some("1".to_string()), "x-y-z-20250101".to_string(), pane(), true, None);
    match ok {
        Ok(i) => {
            assert_eq!(i.short, "x-y-z");
            assert_eq!(i.pane, "w1:p1");
        },
        Err(_) => panic!("input expected"),
    }
}

#[test]
fn model_report_publishes_after_registration() {
    let input = ModelInput {
        pane: "w1:p1".to_string(),
        short: "mistral-large-2".to_string(),
        provider: Some("mistral".to_string()),
    };
    let (m, step) = ModelReporter::start(input);
    assert!(matches!(&step, ModelStep::Call(a) if a[0] == "plugin" && a[1] == "list"));
    let (m, step) = m.step(reply(Some(registered(true))));
    match &step {
        ModelStep::Call(a) => assert_eq!(
            a,
            &args(&[
                "pane",
                "report-metadata",
                "w1:p1",
                "--source",
                "herdr:jcode:model",
                "--token",
                "model=mistral-large-2",
                "--token",
                "provider=mistral",
            ])
        ),
        _ => panic!("call expected"),
    }
    let (_, step) = m.step(Reply { output: Some(Vec::new()), json: None });
    match step {
        ModelStep::Finish(ModelReport::Reported { model, provider }) => {
            assert_eq!(model, "mistral-large-2");
            assert_eq!(provider.as_deref(), Some("mistral"));
        },
        _ => panic!("report expected"),
    }
}

#[test]
fn model_report_skips_a_disabled_plugin_and_fails_open() {
    let input = ModelInput { pane: "p".to_string(), short: "m".to_string(), provider: None };
    let (m, _) = ModelReporter::start(input);
    let (_, step) = m.step(reply(Some(registered(false))));
    assert!(matches!(step, ModelStep::Finish(ModelReport::Skipped(SkipReason::DisabledOrUnlinked))));
    let input = ModelInput { pane: "p".to_string(), short: "m".to_string(), provider: None };
    let (m, _) = ModelReporter::start(input);
    let (m, step) = m.step(reply(Some(registered(true))));
    match &step {
        ModelStep::Call(a) => assert_eq!(a.len(), 7),
        _ => panic!("call expected"),
    }
    let (_, step) = m.step(reply(None));
    assert!(matches!(step, ModelStep::Finish(ModelReport::Unavailable)));
}

fn detector(supported: bool) -> Json {
    obj(vec![
        ("agent", text("jcode")),
        ("manifest_version", if supported { text("1") } else { Json::Null }),
        ("manifest_source", if supported { text("bundled") } else { Json::Null }),
    ])
}

fn diagnose(overridden: bool, version: Option<&[u8]>, detected: Option<Json>, plugins: Option<Json>) -> DoctorReport {
    let (d, step) = Doctor::start(true, overridden);
    assert!(matches!(&step, DoctorStep::Call(a) if a.len() == 1 && a[0] == "--version"));
    let (d, step) = d.step(Reply { output: version.map(|v| v.to_vec()), json: None });
    if let DoctorStep::Finish(r) = step {
        return r;
    }
    let (d, step) = d.step(reply(detected));
    if let DoctorStep::Finish(r) = step {
        return r;
    }
    let (_, step) = d.step(reply(plugins));
    match step {
        DoctorStep::Finish(r) => r,
        DoctorStep::Call(_) => panic!("diagnosis should end"),
    }
}

#[test]
fn doctor_is_ready_only_when_everything_holds() {
    let r = diagnose(false, Some(b" herdr 1.2.3\n"), Some(detector(true)), Some(registered(true)));
    assert!(matches!(r.status(), DoctorStatus::Ready));
    assert_eq!(r.status().label(), "ready");
    match &r {
        DoctorReport::Checked { version_output, .. } => {
            assert_eq!(version_text(version_output), "herdr 1.2.3")
        },
        _ => panic!("checked expected"),
    }
    let r = diagnose(true, Some(b"1"), Some(detector(true)), Some(registered(true)));
    assert!(matches!(r.status(), DoctorStatus::Unavailable));
    let r = diagnose(false, Some(b"1"), Some(detector(false)), Some(registered(true)));
    assert!(matches!(r.status(), DoctorStatus::UnsupportedHost));
    let r = diagnose(false, Some(b"1"), Some(detector(true)), None);
    assert!(matches!(&r, DoctorReport::Checked { registered: None, .. }));
    assert!(matches!(r.status(), DoctorStatus::Unavailable));
}

#[test]
fn doctor_without_host_is_unavailable() {
    let (_, step) = Doctor::start(false, false);
    assert!(matches!(step, DoctorStep::Finish(DoctorReport::MissingBin)));
    assert!(matches!(diagnose(false, None, None, None), DoctorReport::Unavailable));
    assert!(matches!(diagnose(false, Some(b"1"), None, None), DoctorReport::Unavailable));
    assert!(matches!(DoctorReport::MissingBin.status(), DoctorStatus::Unavailable));
}

#[test]
fn version_text_replaces_invalid_bytes() {
    assert_eq!(version_text(b"\xff v1 \n"), "\u{fffd} v1");
}

#[test]
fn help_text_lists_actions() {
    assert!(matches!(parse_args(&Vec::new()), Command::Help));
    assert!(matches!(parse_args(&args(&["--help"])), Command::Help));
    assert!(matches!(parse_args(&args(&["help"])), Command::Help));
    for action in ["setup", "remove", "doctor", "report"] {
        assert!(HELP.contains(action), "missing {action}: {HELP}");
    }
}

#[test]
fn command_line_actions() {
    assert!(matches!(parse_args(&args(&["report"])), Command::Report));
    assert!(matches!(parse_args(&args(&["doctor"])), Command::Doctor));
    assert!(matches!(parse_args(&args(&["setup"])), Command::Edit { install: true, config: None }));
    assert!(matches!(parse_args(&args(&["remove"])), Command::Edit { install: false, config: None }));
    match parse_args(&args(&["setup", "--config", "/tmp/c.toml"])) {
        Command::Edit { install: true, config: Some(p) } => assert_eq!(p, "/tmp/c.toml"),
        _ => panic!("edit expected"),
    }
    assert!(matches!(
        parse_args(&args(&["report", "x"])),
        Command::Invalid(CliError::UnknownAction)
    ));
    assert!(matches!(
        parse_args(&args(&["remove", "--conf", "x"])),
        Command::Invalid(CliError::ExpectedConfig)
    ));
    assert!(matches!(
        parse_args(&args(&["setup", "--config"])),
        Command::Invalid(CliError::ExpectedConfig)
    ));
    assert_eq!(CliError::UnknownAction.message(), "unknown action; use --help");
}

#[test]
fn override_variables_follow_the_events() {
    assert_eq!(override_var(0), "JCODE_HOOK_SESSION_START");
    assert_eq!(override_var(1), "JCODE_HOOK_TURN_START");
    assert_eq!(override_var(2), "JCODE_HOOK_TURN_END");
    assert_eq!(override_var(3), "JCODE_HOOK_SESSION_END");
    assert_eq!(
        override_message("JCODE_HOOK_TURN_END"),
        "JCODE_HOOK_TURN_END overrides config. Unset it before setup and in Jcode's launch environment."
    );
    assert_eq!(edit_status(true), "configured");
    assert_eq!(edit_status(false), "removed");
}

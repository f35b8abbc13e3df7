use herdr_jcode::config::{
    acceptable_config_file, edit_config, event, hook_command, hook_command_for_text, lock_path,
    plan_update, snapshots_agree, FileSnapshot, EVENTS,
};
use std::path::{Path, PathBuf};
use toml_edit::{DocumentMut, Value};

fn hook_texts(doc: &DocumentMut, event: &str) -> Option<Vec<String>> {
    match doc["hooks"][event].as_value()? {
        Value::String(s) => Some(vec![s.value().to_string()]),
        Value::Array(a) => Some(a.iter().map(|v| v.as_str().unwrap().to_string()).collect()),
        _ => None,
    }
}

#[test]
fn quotes_spaces_and_apostrophes() {
    assert_eq!(
        hook_command(Path::new("/tmp/my plugin/it's")).unwrap(),
        "\"/tmp/my plugin/it's\" report"
    );
}

#[test]
fn hook_argv_escapes_backslashes() {
    assert_eq!(
        hook_command(Path::new("/dir/back\\slash\"quote")).unwrap(),
        "\"/dir/back\\\\slash\\\"quote\" report"
    );
}

#[test]
fn hook_command_refuses_relative_paths_and_line_breaks() {
    let expected = "executable path must be absolute and contain no line breaks";
    assert_eq!(hook_command(Path::new("bin/herdr-jcode")).unwrap_err(), expected);
    assert_eq!(hook_command(Path::new("/tmp/a\nb")).unwrap_err(), expected);
    assert_eq!(hook_command(Path::new("/tmp/a\rb")).unwrap_err(), expected);
    assert_eq!(hook_command(Path::new("/tmp/a\0b")).unwrap_err(), expected);
    assert_eq!(hook_command_for_text("relative").unwrap_err(), expected);
    assert_eq!(hook_command_for_text("/usr/bin/x").unwrap(), "\"/usr/bin/x\" report");
}

#[test]
fn lock_path_replaces_the_extension() {
    assert_eq!(
        lock_path(Path::new("/home/u/.jcode/config.toml")),
        PathBuf::from("/home/u/.jcode/config.toml.lock")
    );
    assert_eq!(lock_path(Path::new("/tmp/x")), PathBuf::from("/tmp/x.toml.lock"));
}

#[test]
fn install_absent() {
    let out = edit_config("name = \"x\"\n", "run", true).unwrap();
    let doc = out.parse::<DocumentMut>().unwrap();
    for event in EVENTS {
        assert_eq!(doc["hooks"][event].as_str(), Some("run"));
    }
    assert_eq!(doc["name"].as_str(), Some("x"));
}

#[test]
fn preserves_array_and_removes_exact() {
    let s = "[hooks]\n# keep\nsession_start = [\"a\", \"ab\"]\n";
    let out = edit_config(s, "a", false).unwrap();
    assert!(out.contains("session_start") && out.contains("ab"));
    assert!(out.contains("# keep"));
}

#[test]
fn rejects_types() {
    assert!(edit_config("[hooks]\nturn_end = 1\n", "x", true).is_err());
}

#[test]
fn events_are_public_and_all_lifecycle_hooks_are_updated() {
    assert_eq!(EVENTS, ["session_start", "turn_start", "turn_end", "session_end"]);
    let out = edit_config(
        "[hooks]\nsession_start = [\"user\"]\nturn_end = \"notify\"\n",
        "x",
        true,
    )
    .unwrap();
    let doc = out.parse::<DocumentMut>().unwrap();
    for event in EVENTS {
        assert!(doc["hooks"][event]
            .as_value()
            .and_then(|value| match value {
                Value::String(s) => Some(s.value() == "x"),
                Value::Array(array) => Some(array.iter().any(|v| v.as_str() == Some("x"))),
                _ => None,
            })
            .unwrap());
    }
    assert_eq!(
        doc["hooks"]["session_start"].as_array().unwrap().get(0).unwrap().as_str(),
        Some("user")
    );
    assert_eq!(
        doc["hooks"]["turn_end"].as_array().unwrap().get(0).unwrap().as_str(),
        Some("notify")
    );
}

#[test]
fn malformed_any_event_is_rejected_before_mutation() {
    let input = "[hooks]\nsession_start = [\"old\"]\nturn_start = 1\n";
    assert!(edit_config(input, "x", false).is_err());
    assert_eq!(
        edit_config(input, "x", false).unwrap_err(),
        "turn_start must be a string or array"
    );
}

#[test]
fn nonexistent_removal_is_byte_identical() {
    let s = "[hooks]\nsession_start = [\"a\"] # inline\n";
    assert_eq!(edit_config(s, "missing", false).unwrap(), s);
}

#[test]
fn scalar_inline_comment_survives_install_noop() {
    let s = "[hooks]\nsession_start = \"x\" # keep\n";
    let out = edit_config(s, "x", true).unwrap();
    let doc = out.parse::<DocumentMut>().unwrap();
    for event in EVENTS {
        assert_eq!(doc["hooks"][event].as_str(), Some("x"));
    }
    assert!(out.contains("# keep"));
}

#[test]
fn scalar_hook_is_composed_not_ignored() {
    let s = "[hooks]\nsession_start = 'user' # keep\n";
    let result = edit_config(s, "plugin", true).unwrap();
    let doc = result.parse::<DocumentMut>().unwrap();
    let hooks = doc["hooks"]["session_start"].as_array().unwrap();
    assert_eq!(hooks.get(0).unwrap().as_str(), Some("user"));
    assert_eq!(hooks.get(1).unwrap().as_str(), Some("plugin"));
    assert!(result.contains("# keep"));
}

#[test]
fn reinstall_keeps_owned_entries_in_place_with_their_comments() {
    let s = "[hooks]\nsession_start = [\n 'plugin', # owned\n 'user', # user\n]\nturn_start = 'plugin' # mine\nturn_end = ['user', 'plugin']\nsession_end = \"plugin\"\n";
    assert_eq!(edit_config(s, "plugin", true).unwrap(), s);
}

#[test]
fn mixed_array_is_rejected_without_mutation() {
    assert!(edit_config("[hooks]\nsession_start = ['user', 42]\n", "plugin", true).is_err());
}

#[test]
fn inline_hook_table_keeps_user_values_first() {
    let output = edit_config(
        "hooks = { session_start = 'user', turn_end = 'notify' }\n",
        "plugin",
        true,
    )
    .unwrap();
    assert!(output.starts_with("hooks = {"));
    let doc = output.parse::<DocumentMut>().unwrap();
    assert_eq!(
        hook_texts(&doc, "turn_end"),
        Some(vec!["notify".to_string(), "plugin".to_string()])
    );
    assert_eq!(doc["hooks"]["session_start"].as_array().unwrap().len(), 2);
    assert_eq!(hook_texts(&doc, "turn_start"), Some(vec!["plugin".to_string()]));
}

#[test]
fn edit_errors_name_their_cause() {
    assert_eq!(edit_config("", "", true).unwrap_err(), "command is empty");
    assert!(edit_config("[hooks\n", "x", true).unwrap_err().starts_with("invalid TOML: "));
    assert_eq!(edit_config("hooks = 3\n", "x", true).unwrap_err(), "hooks must be a table");
    assert_eq!(
        edit_config("[hooks]\nsession_end = [1]\n", "x", true).unwrap_err(),
        "session_end array must contain only strings"
    );
    assert_eq!(
        edit_config("[hooks]\nturn_end = true\n", "x", false).unwrap_err(),
        "turn_end must be a string or array"
    );
}

#[test]
fn removal_without_hooks_returns_the_input() {
    let s = "name = 'x' # as is\n";
    assert_eq!(edit_config(s, "x", false).unwrap(), s);
}

#[test]
fn removal_drops_the_command_and_emptied_entries() {
    let s = "[hooks]\nsession_start = \"x\"\nturn_start = [\"x\"]\nturn_end = [\"x\", \"y\"]\nsession_end = \"y\"\n";
    let out = edit_config(s, "x", false).unwrap();
    let doc = out.parse::<DocumentMut>().unwrap();
    assert!(doc["hooks"].get("session_start").is_none());
    assert!(doc["hooks"].get("turn_start").is_none());
    assert_eq!(hook_texts(&doc, "turn_end"), Some(vec!["y".to_string()]));
    assert_eq!(hook_texts(&doc, "session_end"), Some(vec!["y".to_string()]));
}

#[test]
fn install_then_remove_gives_back_user_arrays() {
    let s = "# settings\n[hooks]\nsession_start = [\"a\"]\nturn_start = [\"b\", \"c\"]\nturn_end = [\"d\"]\nsession_end = [\"e\"]\n[other]\nk = 1\n";
    let installed = edit_config(s, "plugin", true).unwrap();
    let doc = installed.parse::<DocumentMut>().unwrap();
    assert_eq!(
        hook_texts(&doc, "turn_start"),
        Some(vec!["b".to_string(), "c".to_string(), "plugin".to_string()])
    );
    let removed = edit_config(&installed, "plugin", false).unwrap();
    let back = removed.parse::<DocumentMut>().unwrap();
    for event in EVENTS {
        assert_eq!(
            hook_texts(&back, event),
            hook_texts(&s.parse::<DocumentMut>().unwrap(), event)
        );
    }
    assert_eq!(back["other"]["k"].as_integer(), Some(1));
    assert!(removed.contains("# settings"));
}

#[test]
fn install_and_remove_are_idempotent() {
    let s = "[hooks]\nturn_end = \"notify\"\n";
    let once = edit_config(s, "p", true).unwrap();
    assert_eq!(edit_config(&once, "p", true).unwrap(), once);
    let gone = edit_config(&once, "p", false).unwrap();
    assert_eq!(edit_config(&gone, "p", false).unwrap(), gone);
}

#[test]
fn events_are_listed_in_order() {
    for (i, name) in EVENTS.iter().enumerate() {
        assert_eq!(event(i), *name);
    }
}

#[test]
fn plan_update_follows_the_file() {
    assert_eq!(plan_update(None, "x", false), Ok(None));
    let created = plan_update(None, "x", true).unwrap().unwrap();
    assert_eq!(created, edit_config("", "x", true).unwrap());
    assert_eq!(
        plan_update(Some(&[0xff, 0xfe][..]), "x", true),
        Err("config must be UTF-8".to_string())
    );
    let current = edit_config("", "x", true).unwrap();
    assert_eq!(plan_update(Some(current.as_bytes()), "x", true), Ok(None));
    assert_eq!(
        plan_update(Some(b"[hooks]\nturn_end = 1\n"), "x", true),
        Err("turn_end must be a string or array".to_string())
    );
    assert!(plan_update(Some(b"[hooks]\n"), "x", true).unwrap().is_some());
}

#[test]
fn snapshots_compare_identity_and_bytes() {
    let a = FileSnapshot { dev: 1, ino: 2, mode: 0o640, uid: 3, gid: 4, bytes: b"k = 1\n".to_vec() };
    let same = FileSnapshot { dev: 1, ino: 2, mode: 0o640, uid: 3, gid: 4, bytes: b"k = 1\n".to_vec() };
    let edited = FileSnapshot { dev: 1, ino: 2, mode: 0o640, uid: 3, gid: 4, bytes: b"k = 2\n".to_vec() };
    let moved = FileSnapshot { dev: 1, ino: 9, mode: 0o640, uid: 3, gid: 4, bytes: b"k = 1\n".to_vec() };
    assert!(snapshots_agree(&None, &None));
    assert!(snapshots_agree(&Some(a), &Some(same)));
    let a = FileSnapshot { dev: 1, ino: 2, mode: 0o640, uid: 3, gid: 4, bytes: b"k = 1\n".to_vec() };
    assert!(!snapshots_agree(&Some(a), &Some(edited)));
    let a = FileSnapshot { dev: 1, ino: 2, mode: 0o640, uid: 3, gid: 4, bytes: b"k = 1\n".to_vec() };
    assert!(!snapshots_agree(&Some(a), &Some(moved)));
    let a = FileSnapshot { dev: 1, ino: 2, mode: 0o640, uid: 3, gid: 4, bytes: Vec::new() };
    assert!(!snapshots_agree(&Some(a), &None));
}

#[test]
fn only_plain_single_link_files_are_edited() {
    assert!(acceptable_config_file(true, false, 1));
    assert!(!acceptable_config_file(true, true, 1));
    assert!(!acceptable_config_file(true, false, 2));
    assert!(!acceptable_config_file(false, false, 1));
}

#[test]
fn setup_then_remove_restores_the_user_text() {
    let original = "# user settings\n[hooks]\nsession_start = [\"user-observer\"] # keep me\nturn_end = \"notify\"\n";
    let command = "\"/usr/local/bin/herdr-jcode\" report";
    let installed = edit_config(original, command, true).unwrap();
    assert!(installed.contains(" report"));
    assert!(installed.contains("# keep me"));
    assert_eq!(edit_config(&installed, command, true).unwrap(), installed);
    assert_eq!(edit_config(&installed, command, false).unwrap(), original);
}

#[test]
fn composed_string_keeps_its_comment_and_comes_back() {
    let original = "[hooks]\nsession_start = 'user' # keep\n";
    let installed = edit_config(original, "plugin", true).unwrap();
    let doc = installed.parse::<DocumentMut>().unwrap();
    assert_eq!(
        hook_texts(&doc, "session_start"),
        Some(vec!["user".to_string(), "plugin".to_string()])
    );
    assert!(installed.contains("# keep"));
    assert_eq!(edit_config(&installed, "plugin", false).unwrap(), original);
}

#[test]
fn a_user_pair_array_stays_an_array() {
    for s in ["[hooks]\nturn_end = [\"a\", \"x\"]\n", "[hooks]\nturn_end = [\"a\",\"x\"]\n"] {
        let out = edit_config(s, "x", false).unwrap();
        let doc = out.parse::<DocumentMut>().unwrap();
        assert!(doc["hooks"]["turn_end"].as_array().is_some());
        assert_eq!(hook_texts(&doc, "turn_end"), Some(vec!["a".to_string()]));
    }
}

#[test]
fn a_composed_array_is_marked_and_a_grown_one_is_not() {
    let out = edit_config("[hooks]\nturn_end = \"notify\"\nturn_start = [\"a\"]\n", "x", true).unwrap();
    assert!(out.contains("turn_end = [\"notify\", \"x\" # herdr-jcode: was a single hook\n]"));
    assert!(out.contains("turn_start = [\"a\", \"x\"]\n"));
    let back = edit_config(&out, "x", false).unwrap();
    assert_eq!(back, "[hooks]\nturn_end = \"notify\"\nturn_start = [\"a\"]\n");
}

#[test]
fn distinct_paths_give_distinct_commands() {
    let a = hook_command_for_text("/opt/a\\\"b").unwrap();
    let b = hook_command_for_text("/opt/a\\b\"").unwrap();
    assert_ne!(a, b);
}

#[test]
fn setup_into_an_empty_file_succeeds() {
    let out = edit_config("", "run", true).unwrap();
    let doc = out.parse::<DocumentMut>().unwrap();
    for event in EVENTS {
        assert_eq!(doc["hooks"][event].as_str(), Some("run"));
    }
}

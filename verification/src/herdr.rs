//! What the plugin reads from Herdr's answers, the commands it sends, and the
//! labels of its reports.
use crate::json::{field, is_text, json_of, member, parse_json, text_of, then_field, Json};
use crate::text::{owned, same_text};
use vstd::prelude::*;

verus! {

/// The plugin's identifier in Herdr.
pub const PLUGIN_ID: &'static str = "leonardoacosta.herdr-jcode";

/// The source under which the plugin reports agent state.
pub const STATE_SOURCE: &'static str = "custom:leonardoacosta.herdr-jcode";

/// The source under which the plugin publishes model metadata.
pub const MODEL_SOURCE: &'static str = "herdr:jcode:model";

/// The largest output of a Herdr CLI call the plugin accepts, in bytes.
pub const MAX_OUTPUT: usize = 64 * 1024;

/// How long a Herdr CLI call may run, in milliseconds.
pub const TIMEOUT_MILLIS: u64 = 2000;

/// Whether a plugin entry of `plugin list` is this plugin, enabled.
pub open spec fn plugin_entry_enabled(p: Json) -> bool {
    is_text(member(p, "plugin_id"@), PLUGIN_ID@) && member(p, "enabled"@) == Json::Bool(true)
}

/// What a `plugin list` answer says of this plugin: `None` when the answer has no
/// `result.plugins` array, otherwise whether this plugin is listed and enabled.
pub open spec fn registration(v: Json) -> Option<bool> {
    match then_field(field(v, "result"@), "plugins"@) {
        Some(Json::Array(a)) => Some(exists|i: int| 0 <= i < a@.len() && plugin_entry_enabled(#[trigger] a@[i])),
        _ => None,
    }
}

/// Whether Herdr's agent detector recognises Jcode natively.
pub open spec fn native_support(v: Json) -> bool {
    &&& is_text(member(v, "agent"@), "jcode"@)
    &&& member(v, "manifest_version"@) is Text
    &&& member(v, "manifest_source"@) is Text
    &&& !is_text(member(v, "fallback_reason"@), "unknown_agent"@)
}

/// The identity a `pane get` answer reports for the pane's agent session (value,
/// source, agent), when the session is of kind `id` and all three are strings.
pub open spec fn session_identity(v: Json) -> Option<(Seq<char>, Seq<char>, Seq<char>)> {
    match then_field(then_field(field(v, "result"@), "pane"@), "agent_session"@) {
        None => None,
        Some(s) => if !is_text(member(s, "kind"@), "id"@) {
            None
        } else {
            match (text_of(member(s, "value"@)), text_of(member(s, "source"@)), text_of(member(s, "agent"@))) {
                (Some(a), Some(b), Some(c)) => Some((a, b, c)),
                _ => None,
            }
        },
    }
}

/// Whether `plugin list` says this plugin is registered and enabled (`None` when the
/// answer does not hold the list).
pub fn enabled(value: &Json) -> (r: Option<bool>)
    ensures
        r == registration(*value),
{
    let plugins = match value.get("result") {
        Some(result) => match result.get("plugins") {
            Some(Json::Array(a)) => a,
            _ => return None,
        },
        None => return None,
    };
    let mut i: usize = 0;
    while i < plugins.len()
        invariant
            i <= plugins@.len(),
            then_field(field(*value, "result"@), "plugins"@) == Some(Json::Array(*plugins)),
            forall|k: int| 0 <= k < i ==> !plugin_entry_enabled(#[trigger] plugins@[k]),
        decreases plugins.len() - i,
    {
        let p = &plugins[i];
        if p.member_is("plugin_id", PLUGIN_ID) && p.member_is_true("enabled") {
            let ghost a = *plugins;
            assert(plugin_entry_enabled(a@[i as int]));
            assert(then_field(field(*value, "result"@), "plugins"@)->Some_0->Array_0 == a);
            return Some(true);
        }
        i = i + 1;
    }
    Some(false)
}

/// Whether Herdr's detector answer shows native Jcode support.
pub fn native_detector(value: &Json) -> (r: bool)
    ensures
        r == native_support(*value),
{
    value.member_is("agent", "jcode") && value.member_is_string("manifest_version")
        && value.member_is_string("manifest_source") && !value.member_is(
        "fallback_reason",
        "unknown_agent",
    )
}

/// The agent session identity of a `pane get` answer: value, source and agent.
pub fn session_fields(value: &Json) -> (r: Option<(&str, &str, &str)>)
    ensures
        match r {
            Some((a, b, c)) => session_identity(*value) == Some((a@, b@, c@)),
            None => session_identity(*value) is None,
        },
{
    let session = value.get("result")?.get("pane")?.get("agent_session")?;
    if !session.member_is("kind", "id") {
        return None;
    }
    let a = session.get("value")?.as_text()?;
    let b = session.get("source")?.as_text()?;
    let c = session.get("agent")?.as_text()?;
    Some((a, b, c))
}

/// Whether the answer shows the session `session` recorded for Jcode by this plugin.
pub fn session_is(value: &Json, session: &str) -> (r: bool)
    ensures
        r == (session_identity(*value) == Some((session@, "herdr:jcode"@, "jcode"@))),
{
    match session_fields(value) {
        Some((a, b, c)) => same_text(a, session) && same_text(b, "herdr:jcode") && same_text(
            c,
            "jcode",
        ),
        None => false,
    }
}

/// The texts of a list of arguments.
pub open spec fn words(v: Seq<String>) -> Seq<Seq<char>> {
    v.map_values(|s: String| s@)
}

/// `v` with the text `s` appended.
pub fn push_word(v: &mut Vec<String>, s: &str)
    ensures
        words(final(v)@) == words(old(v)@).push(s@),
{
    v.push(owned(s));
    assert(words(v@) =~= words(old(v)@).push(s@));
}

/// The arguments of `plugin list` for this plugin.
pub open spec fn plugin_list_args() -> Seq<Seq<char>> {
    seq!["plugin"@, "list"@, "--plugin"@, PLUGIN_ID@, "--json"@]
}

/// The arguments of `pane get`.
pub open spec fn pane_get_args(pane: Seq<char>) -> Seq<Seq<char>> {
    seq!["pane"@, "get"@, pane]
}

/// The arguments of Herdr's agent detector for Jcode.
pub open spec fn detector_args() -> Seq<Seq<char>> {
    seq!["agent"@, "explain"@, "--file"@, "/dev/null"@, "--agent"@, "jcode"@, "--json"@]
}

/// `plugin list --plugin <id> --json`.
pub fn plugin_list_call() -> (r: Vec<String>)
    ensures
        words(r@) == plugin_list_args(),
{
    let mut v = Vec::new();
    push_word(&mut v, "plugin");
    push_word(&mut v, "list");
    push_word(&mut v, "--plugin");
    push_word(&mut v, PLUGIN_ID);
    push_word(&mut v, "--json");
    assert(words(v@) =~= plugin_list_args());
    v
}

/// `pane get <pane>`.
pub fn pane_get_call(pane: &str) -> (r: Vec<String>)
    ensures
        words(r@) == pane_get_args(pane@),
{
    let mut v = Vec::new();
    push_word(&mut v, "pane");
    push_word(&mut v, "get");
    push_word(&mut v, pane);
    assert(words(v@) =~= pane_get_args(pane@));
    v
}

/// `agent explain --file /dev/null --agent jcode --json`.
pub fn detector_call() -> (r: Vec<String>)
    ensures
        words(r@) == detector_args(),
{
    let mut v = Vec::new();
    push_word(&mut v, "agent");
    push_word(&mut v, "explain");
    push_word(&mut v, "--file");
    push_word(&mut v, "/dev/null");
    push_word(&mut v, "--agent");
    push_word(&mut v, "jcode");
    push_word(&mut v, "--json");
    assert(words(v@) =~= detector_args());
    v
}

/// What Herdr's CLI answered to one call: its output when it exited successfully within
/// the time and size limits, and that output read as JSON when it is JSON.
pub struct Reply {
    pub output: Option<Vec<u8>>,
    pub json: Option<Json>,
}

/// The reply to a call whose output (when it succeeded) is `output`: that output, read as
/// JSON where it is JSON.
pub fn reply_of(output: Option<Vec<u8>>) -> (r: Reply)
    ensures
        r.output == output,
        r.json == match output {
            Some(b) => json_of(b@),
            None => None,
        },
{
    let json = match &output {
        Some(b) => parse_json(b.as_slice()),
        None => None,
    };
    Reply { output, json }
}

/// The answer of a request: the JSON output, unless there is none or it reports an
/// `error`.
pub open spec fn answer(reply: Reply) -> Option<Json> {
    match reply.json {
        Some(v) => if field(v, "error"@) is Some {
            None
        } else {
            Some(v)
        },
        None => None,
    }
}

/// The answer of a request.
pub fn answer_of(reply: Reply) -> (r: Option<Json>)
    ensures
        r == answer(reply),
{
    match reply.json {
        Some(v) => if v.get("error").is_some() {
            None
        } else {
            Some(v)
        },
        None => None,
    }
}

/// Whether an environment variable is passed on to the Herdr CLI: `PATH`, `HOME`,
/// `LANG`, `TERM`, and those starting with `XDG_` or `HERDR_`.
pub open spec fn forwarded(name: Seq<char>) -> bool {
    ||| name == "PATH"@
    ||| name == "HOME"@
    ||| name == "LANG"@
    ||| name == "TERM"@
    ||| (name.len() >= 4 && name.take(4) == "XDG_"@)
    ||| (name.len() >= 6 && name.take(6) == "HERDR_"@)
}

/// Whether `s` begins with `prefix`.
pub fn starts_with(s: &str, prefix: &str) -> (r: bool)
    ensures
        r == (s@.len() >= prefix@.len() && s@.take(prefix@.len() as int) == prefix@),
{
    let n = prefix.unicode_len();
    if s.unicode_len() < n {
        return false;
    }
    let head = s.substring_char(0, n);
    same_text(head, prefix)
}

/// Whether the environment variable `name` is passed on to the Herdr CLI.
pub fn forwarded_env(name: &str) -> (r: bool)
    ensures
        r == forwarded(name@),
{
    proof {
        reveal_strlit("XDG_");
        reveal_strlit("HERDR_");
    }
    same_text(name, "PATH") || same_text(name, "HOME") || same_text(name, "LANG") || same_text(
        name,
        "TERM",
    ) || starts_with(name, "XDG_") || starts_with(name, "HERDR_")
}

/// Whether a finished call's output is accepted: the call succeeded and its output is
/// within `MAX_OUTPUT` bytes.
pub fn output_accepted(success: bool, len: usize) -> (r: bool)
    ensures
        r == (success && len <= MAX_OUTPUT),
{
    success && len <= MAX_OUTPUT
}

/// The Herdr binary to call, from `HERDR_BIN_PATH`: none when unset or empty.
pub fn herdr_bin(raw: Option<String>) -> (r: Option<String>)
    ensures
        match raw {
            Some(s) => if s@.len() > 0 {
                r == Some(s)
            } else {
                r is None
            },
            None => r is None,
        },
{
    match raw {
        Some(s) => if s.as_str().is_empty() {
            None
        } else {
            Some(s)
        },
        None => None,
    }
}

} // verus!

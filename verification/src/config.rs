//! Installing and removing the plugin's hook command in Jcode's `config.toml`.
use crate::document::{
    holds_value, hook_decor, hooks_of, hooks_present, hooks_table_like, insert_hooks_table,
    kept_apart, tail_of, opt_text, others_of, parse_document, push_hook, push_marked_hook,
    read_hook, read_hook_decor, read_tail, remove_hook, render_document, rendered, retain_hook,
    set_hook_decor, set_hook_text, texts, toml_parse, unwrap_hook, with_hook_decor,
    with_hook_text, with_hooks_table, with_pushed_hook, with_retained_hook, with_marked_hook,
    with_unwrapped_hook, with_wrapped_hook, without_hook, wrap_hook, HookEntry,
};
use crate::hooks::{
    composed, entry, entry_error, event_name, lemma_event_names_distinct, planned, planned_entry,
    planned_upto, set_entry, validation, validation_from, without, HookValue, HooksView,
    EVENT_COUNT,
};
use crate::text::{joined, opt_str, owned, same_text};
use std::path::{Path, PathBuf};
use toml_edit::DocumentMut;
use vstd::prelude::*;
use vstd::utf8::{decode_utf8, valid_utf8};

verus! {

#[verifier::external_type_specification]
#[verifier::external_body]
pub struct ExPath(Path);

#[verifier::external_type_specification]
#[verifier::external_body]
pub struct ExPathBuf(PathBuf);

/// The text of a path when it is valid UTF-8 (`Path::to_str`).
pub uninterp spec fn path_text(path: &Path) -> Option<Seq<char>>;

/// The path `Path::with_extension` makes of `path` and `extension`.
pub uninterp spec fn path_with_extension(path: &Path, extension: Seq<char>) -> PathBuf;

/// `Path::to_str`: the path's text, if it is valid UTF-8.
#[verifier::external_body]
fn path_to_text(path: &Path) -> (r: Option<&str>)
    ensures
        opt_str(r) == path_text(path),
{
    path.to_str()
}

/// `Path::with_extension` (which panics on an extension holding a path separator).
#[verifier::external_body]
fn with_extension(path: &Path, extension: &str) -> (r: PathBuf)
    requires
        !extension@.contains('/'),
    ensures
        r == path_with_extension(path, extension@),
{
    path.with_extension(extension)
}

/// A result with its texts.
pub open spec fn result_text(r: Result<String, String>) -> Result<Seq<char>, Seq<char>> {
    match r {
        Ok(s) => Ok(s@),
        Err(e) => Err(e@),
    }
}

/// How a character of the executable path is written inside double quotes.
pub open spec fn escape_char(c: char) -> Seq<char> {
    if c == '\\' {
        seq!['\\', '\\']
    } else if c == '"' {
        seq!['\\', '"']
    } else {
        seq![c]
    }
}

/// `s` with every backslash doubled and every double quote preceded by a backslash.
pub open spec fn escaped(s: Seq<char>) -> Seq<char>
    decreases s.len(),
{
    if s.len() == 0 {
        s
    } else {
        escaped(s.drop_last()) + escape_char(s.last())
    }
}

/// Whether a path text is absolute, as `Path::is_absolute` decides it on Unix: it
/// starts with the root `/`.
pub open spec fn is_absolute_text(t: Seq<char>) -> bool {
    t.len() > 0 && t[0] == '/'
}

/// The hook command for an executable whose path has the text `t`: the quoted,
/// escaped path followed by ` report`.
pub open spec fn command_for_text(t: Seq<char>) -> Result<Seq<char>, Seq<char>> {
    if !is_absolute_text(t) || t.contains('\0') || t.contains('\n') || t.contains('\r') {
        Err("executable path must be absolute and contain no line breaks"@)
    } else {
        Ok(seq!['"'] + escaped(t) + "\" report"@)
    }
}

/// The hook command for an executable path.
pub open spec fn command_for_path(path: Option<Seq<char>>) -> Result<Seq<char>, Seq<char>> {
    match path {
        None => Err("executable path must be UTF-8"@),
        Some(t) => command_for_text(t),
    }
}

/// The command Jcode runs for each hook: the executable's path, quoted and escaped,
/// followed by ` report`.
pub fn hook_command(executable: &Path) -> (r: Result<String, String>)
    ensures
        result_text(r) == command_for_path(path_text(executable)),
{
    match path_to_text(executable) {
        None => Err(owned("executable path must be UTF-8")),
        Some(t) => hook_command_for_text(t),
    }
}

/// The hook command for the executable whose path has the text `text`.
pub fn hook_command_for_text(text: &str) -> (r: Result<String, String>)
    ensures
        result_text(r) == command_for_text(text@),
{
    if !starts_with_root(text) || has_char(text, '\0') || has_char(text, '\n') || has_char(
        text,
        '\r',
    ) {
        return Err(owned("executable path must be absolute and contain no line breaks"));
    }
    let mut r = owned("\"");
    proof {
        reveal_strlit("\"");
    }
    let quoted = escape_text(text);
    r.append(quoted.as_str());
    r.append("\" report");
    assert(r@ =~= seq!['"'] + escaped(text@) + "\" report"@);
    Ok(r)
}

/// Whether `t` starts with `/`.
fn starts_with_root(t: &str) -> (r: bool)
    ensures
        r == is_absolute_text(t@),
{
    t.unicode_len() > 0 && t.get_char(0) == '/'
}

/// Whether `t` contains the character `c`.
fn has_char(t: &str, c: char) -> (r: bool)
    ensures
        r == t@.contains(c),
{
    let n = t.unicode_len();
    let mut i: usize = 0;
    while i < n
        invariant
            n == t@.len(),
            i <= n,
            forall|j: int| 0 <= j < i ==> t@[j] != c,
        decreases n - i,
    {
        if t.get_char(i) == c {
            return true;
        }
        i = i + 1;
    }
    false
}

/// `t` escaped for double quotes.
fn escape_text(t: &str) -> (r: String)
    ensures
        r@ == escaped(t@),
{
    proof {
        reveal_strlit("\\\\");
        reveal_strlit("\\\"");
    }
    let n = t.unicode_len();
    let mut r = String::new();
    let mut i: usize = 0;
    while i < n
        invariant
            n == t@.len(),
            i <= n,
            r@ == escaped(t@.take(i as int)),
            "\\\\"@ == seq!['\\', '\\'],
            "\\\""@ == seq!['\\', '"'],
        decreases n - i,
    {
        let c = t.get_char(i);
        assert(t@.take(i + 1).drop_last() =~= t@.take(i as int));
        if c == '\\' {
            r.append("\\\\");
        } else if c == '"' {
            r.append("\\\"");
        } else {
            r.append(t.substring_char(i, i + 1));
        }
        assert(r@ =~= escaped(t@.take(i + 1)));
        i = i + 1;
    }
    assert(t@.take(n as int) =~= t@);
    r
}

/// The lock file that serializes the plugin's writes to `path`: the same path with
/// the extension `toml.lock`.
pub fn lock_path(path: &Path) -> (r: PathBuf)
    ensures
        r == path_with_extension(path, "toml.lock"@),
{
    proof {
        reveal_strlit("toml.lock");
        assert(!"toml.lock"@.contains('/')) by {
            assert forall|i: int| 0 <= i < "toml.lock"@.len() implies "toml.lock"@[i] != '/' by {}
        }
    }
    with_extension(path, "toml.lock")
}

/// The lifecycle events whose hooks the plugin installs.
pub const EVENTS: [&'static str; 4] = ["session_start", "turn_start", "turn_end", "session_end"];

/// The name of the `i`-th event.
pub fn event(i: usize) -> (r: &'static str)
    requires
        i < EVENT_COUNT,
    ensures
        r@ == event_name(i as int),
{
    if i == 0 {
        "session_start"
    } else if i == 1 {
        "turn_start"
    } else if i == 2 {
        "turn_end"
    } else {
        "session_end"
    }
}

/// The comment setup writes after the command when it turns a user's single string hook
/// into an array, so that removal knows to give the string back.
pub const COMPOSED_MARK: &'static str = " # herdr-jcode: was a single hook\n";

/// Whether the second element of the array under `e` carries the mark of a composed array.
pub open spec fn marked_at(d: DocumentMut, e: Seq<char>) -> bool {
    tail_of(d, e, 1) == Some(COMPOSED_MARK@)
}

/// For each key, whether its array's second element carries the mark of a composed array.
pub open spec fn marks_of(d: DocumentMut) -> spec_fn(Seq<char>) -> bool {
    |e: Seq<char>| marked_at(d, e)
}

/// The document after the edit of one event, as the editor decides it from the
/// document's hooks table. A string other than the command becomes the array of both,
/// the command followed by `COMPOSED_MARK` and the string's decor (with its comment)
/// moved to the array; removal turns such a marked array back into the string, with the
/// array's decor.
pub open spec fn apply_event(d: DocumentMut, e: Seq<char>, c: Seq<char>, install: bool) -> DocumentMut {
    match hooks_of(d) {
        HooksView::Table(m) => match entry(m, e) {
            None => if install {
                with_hook_text(d, e, c)
            } else {
                d
            },
            Some(HookValue::Text(s)) => if s == c {
                if install {
                    d
                } else {
                    without_hook(d, e)
                }
            } else if install {
                with_hook_decor(
                    with_marked_hook(with_wrapped_hook(d, e), e, c, COMPOSED_MARK@),
                    e,
                    hook_decor(d, e),
                )
            } else {
                d
            },
            Some(HookValue::List(l)) => if install {
                if l.contains(Some(c)) {
                    d
                } else {
                    with_pushed_hook(d, e, c)
                }
            } else if composed(l, c, marked_at(d, e)) {
                with_hook_decor(with_unwrapped_hook(with_retained_hook(d, e, c), e), e, hook_decor(d, e))
            } else {
                let kept = if l.contains(Some(c)) {
                    with_retained_hook(d, e, c)
                } else {
                    d
                };
                if without(l, c).len() == 0 {
                    without_hook(kept, e)
                } else {
                    kept
                }
            },
            Some(HookValue::Other) => d,
        },
        _ => d,
    }
}

/// The document after the edit of the first `n` events.
pub open spec fn apply_upto(d: DocumentMut, c: Seq<char>, install: bool, n: int) -> DocumentMut
    decreases n,
{
    if n <= 0 {
        d
    } else {
        apply_event(apply_upto(d, c, install, n - 1), event_name(n - 1), c, install)
    }
}

/// The outcome of the edit once the document has a hooks item.
pub open spec fn edit_document(d: DocumentMut, c: Seq<char>, install: bool) -> Result<Seq<char>, Seq<char>> {
    match hooks_of(d) {
        HooksView::Table(m) => match validation(m) {
            Some(err) => Err(err),
            None => Ok(rendered(apply_upto(d, c, install, EVENT_COUNT as int))),
        },
        _ => Err("hooks must be a table"@),
    }
}

/// The document whose hooks are edited: the parsed one, with an empty hooks table
/// added when installing into a document without one.
pub open spec fn prepared(d: DocumentMut, install: bool) -> DocumentMut {
    if install && hooks_of(d) is Missing {
        with_hooks_table(d)
    } else {
        d
    }
}

/// What `edit_config` returns for `input`, command `c` and direction `install`.
pub open spec fn edit_outcome(input: Seq<char>, c: Seq<char>, install: bool) -> Result<
    Seq<char>,
    Seq<char>,
> {
    if c.len() == 0 {
        Err("command is empty"@)
    } else {
        match toml_parse(input) {
            Err(e) => Err("invalid TOML: "@ + e),
            Ok(d) => if !install && hooks_of(d) is Missing {
                Ok(input)
            } else {
                edit_document(prepared(d, install), c, install)
            },
        }
    }
}

/// The hooks table the edit starts from: that of the parsed input, or an empty one.
pub open spec fn start_hooks(input: Seq<char>) -> Map<Seq<char>, HookValue> {
    match toml_parse(input) {
        Ok(d) => match hooks_of(d) {
            HooksView::Table(m) => m,
            _ => Map::empty(),
        },
        Err(_) => Map::empty(),
    }
}

/// The edited document, when the input parses.
pub open spec fn edited_document(input: Seq<char>, c: Seq<char>, install: bool) -> DocumentMut {
    apply_upto(prepared(toml_parse(input)->Ok_0, install), c, install, EVENT_COUNT as int)
}

/// For each key, whether its array's second element carries the mark of a composed
/// array, in the document the edit of `input` starts from.
pub open spec fn start_marks(input: Seq<char>, install: bool) -> spec_fn(Seq<char>) -> bool {
    marks_of(prepared(toml_parse(input)->Ok_0, install))
}

/// What the edit keeps of the layout of event `e`, from `d0` to `d`: a string or array
/// that stays one keeps its decor (with its comment); and when installing, a string `s`
/// made into `[s, c]` has `c` marked, while `c` appended to a one-element array of the
/// user's is not.
pub open spec fn layout_kept(d0: DocumentMut, d: DocumentMut, e: Seq<char>, c: Seq<char>, install: bool) -> bool {
    let m = hooks_of(d0)->Table_0;
    &&& holds_value(d0, e) && holds_value(d, e) ==> hook_decor(d, e) == hook_decor(d0, e)
    &&& (install && (entry(m, e) matches Some(HookValue::Text(s)) && s != c)) ==> marked_at(d, e)
    &&& (install && (entry(m, e) matches Some(HookValue::List(l)) && l.len() == 1 && !l.contains(
        Some(c),
    ))) ==> !marked_at(d, e)
}

/// Installs (`install`) or removes `command` as the hook of every lifecycle event of
/// the TOML text `input`, keeping the user's hooks, comments and layout.
pub fn edit_config(input: &str, command: &str, install: bool) -> (r: Result<String, String>)
    ensures
        r matches Ok(out) ==> edit_outcome(input@, command@, install) == Ok::<Seq<char>, Seq<char>>(
            out@,
        ),
        r matches Err(e) ==> edit_outcome(input@, command@, install) == Err::<Seq<char>, Seq<char>>(
            e@,
        ),
        command@.len() > 0 && install && toml_parse(input@) is Ok && hooks_of(
            toml_parse(input@)->Ok_0,
        ) is Missing ==> r is Ok,
        command@.len() > 0 && install && input@.len() == 0 ==> r is Ok,
        r is Ok && !(!install && hooks_of(toml_parse(input@)->Ok_0) is Missing) ==> {
            &&& hooks_of(edited_document(input@, command@, install)) == HooksView::Table(
                planned(start_hooks(input@), start_marks(input@, install), command@, install),
            )
            &&& others_of(edited_document(input@, command@, install)) == others_of(
                toml_parse(input@)->Ok_0,
            )
            &&& forall|i: int|
                0 <= i < EVENT_COUNT ==> #[trigger] layout_kept(
                    prepared(toml_parse(input@)->Ok_0, install),
                    edited_document(input@, command@, install),
                    event_name(i),
                    command@,
                    install,
                )
        },
{
    if command.is_empty() {
        return Err(owned("command is empty"));
    }
    let parsed_result = parse_document(input);
    let mut doc = match parsed_result {
        Ok(d) => d,
        Err(e) => return Err(joined("invalid TOML: ", e.as_str())),
    };
    let ghost parsed = doc;
    if !hooks_present(&doc) {
        if !install {
            return Ok(owned(input));
        }
        insert_hooks_table(&mut doc);
    }
    assert(doc == prepared(parsed, install));
    assert(toml_parse(input@) == Ok::<DocumentMut, Seq<char>>(parsed));
    assert(others_of(doc) == others_of(parsed));
    if !hooks_table_like(&doc) {
        return Err(owned("hooks must be a table"));
    }
    let ghost m = hooks_of(doc)->Table_0;
    assert(m == start_hooks(input@));
    let mut i: usize = 0;
    while i < EVENT_COUNT
        invariant
            0 <= i <= EVENT_COUNT,
            hooks_of(doc) == HooksView::Table(m),
            validation_from(m, 0) == validation_from(m, i as int),
            doc == prepared(parsed, install),
            toml_parse(input@) == Ok::<DocumentMut, Seq<char>>(parsed),
            !(!install && hooks_of(parsed) is Missing),
            hooks_of(parsed) is Missing ==> m == Map::<Seq<char>, HookValue>::empty(),
            input@.len() == 0 ==> hooks_of(parsed) is Missing,
            command@.len() > 0,
        decreases EVENT_COUNT - i,
    {
        let ev = event(i);
        match hooks_entry_error(&doc, ev) {
            Some(err) => {
                return Err(err);
            },
            None => {},
        }
        i = i + 1;
    }
    let ghost d0 = doc;
    proof {
        lemma_event_names_distinct();
    }
    let mut i: usize = 0;
    while i < EVENT_COUNT
        invariant
            0 <= i <= EVENT_COUNT,
            doc == apply_upto(d0, command@, install, i as int),
            hooks_of(doc) == HooksView::Table(planned_upto(m, marks_of(d0), command@, install, i as int)),
            hooks_of(d0) == HooksView::Table(m),
            validation(m) is None,
            d0 == prepared(parsed, install),
            toml_parse(input@) == Ok::<DocumentMut, Seq<char>>(parsed),
            !(!install && hooks_of(parsed) is Missing),
            m == start_hooks(input@),
            command@.len() > 0,
            others_of(doc) == others_of(parsed),
            forall|j: int|
                i <= j < EVENT_COUNT ==> #[trigger] hook_decor(doc, event_name(j)) == hook_decor(
                    d0,
                    event_name(j),
                ),
            forall|j: int, k: int|
                i <= j < EVENT_COUNT ==> #[trigger] tail_of(doc, event_name(j), k) == tail_of(
                    d0,
                    event_name(j),
                    k,
                ),
            forall|j: int| 0 <= j < i ==> #[trigger] layout_kept(d0, doc, event_name(j), command@, install),
            forall|a: int, b: int|
                0 <= a < EVENT_COUNT && 0 <= b < EVENT_COUNT && a != b ==> event_name(a)
                    != event_name(b),
        decreases EVENT_COUNT - i,
    {
        let ev = event(i);
        let ghost before = doc;
        proof {
            lemma_untouched_entry(m, marks_of(d0), command@, install, i as int, event_name(i as int));
            lemma_valid_entry(m, i as int);
            assert(tail_of(doc, event_name(i as int), 1) == tail_of(d0, event_name(i as int), 1));
        }
        edit_event(&mut doc, ev, command, install);
        proof {
            assert forall|j: int| 0 <= j < i + 1 implies #[trigger] layout_kept(
                d0,
                doc,
                event_name(j),
                command@,
                install,
            ) by {
                if j < i {
                    assert(layout_kept(d0, before, event_name(j), command@, install));
                    assert(event_name(j) != event_name(i as int));
                    assert(hook_decor(doc, event_name(j)) == hook_decor(before, event_name(j)));
                    assert(tail_of(doc, event_name(j), 1) == tail_of(before, event_name(j), 1));
                    assert(entry(hooks_of(doc)->Table_0, event_name(j)) == entry(
                        hooks_of(before)->Table_0,
                        event_name(j),
                    ));
                }
            }
        }
        i = i + 1;
    }
    Ok(render_document(&doc))
}

/// The error of the value of `event`, if it is neither absent, a string nor an array of
/// strings.
fn hooks_entry_error(doc: &DocumentMut, event: &str) -> (r: Option<String>)
    requires
        hooks_of(*doc) is Table,
    ensures
        opt_text(r) == entry_error(event@, entry(hooks_of(*doc)->Table_0, event@)),
{
    let read = read_hook(doc, event);
    match read {
        Some(HookEntry::List(l)) => {
            if all_texts(&l) {
                None
            } else {
                Some(joined(event, " array must contain only strings"))
            }
        },
        Some(HookEntry::Other) => Some(joined(event, " must be a string or array")),
        _ => None,
    }
}

/// Whether every element of the array is a string.
fn all_texts(l: &Vec<Option<String>>) -> (r: bool)
    ensures
        r == !texts(l@).contains(None),
{
    let ghost ml = texts(l@);
    let mut j: usize = 0;
    while j < l.len()
        invariant
            j <= l.len(),
            ml == texts(l@),
            forall|k: int| 0 <= k < j ==> l@[k] is Some,
        decreases l.len() - j,
    {
        if l[j].is_none() {
            assert(ml[j as int] == None::<Seq<char>>);
            return false;
        }
        j = j + 1;
    }
    assert forall|k: int| 0 <= k < ml.len() implies ml[k] != None::<Seq<char>> by {
        assert(l@[k] is Some);
    }
    true
}

/// An edit made of several steps on one event keeps the rest apart when each step does.
proof fn lemma_kept_apart_chain(a: DocumentMut, b: DocumentMut, c: DocumentMut, e: Seq<char>)
    requires
        kept_apart(a, b, e),
        kept_apart(b, c, e),
    ensures
        kept_apart(a, c, e),
{
    assert forall|k: Seq<char>| k != e implies #[trigger] hook_decor(c, k) == hook_decor(a, k) by {
        assert(hook_decor(b, k) == hook_decor(a, k));
    }
    assert forall|k: Seq<char>, i: int| k != e implies #[trigger] tail_of(c, k, i) == tail_of(a, k, i) by {
        assert(tail_of(b, k, i) == tail_of(a, k, i));
    }
}

/// The edit of one event's value.
fn edit_event(doc: &mut DocumentMut, event: &str, command: &str, install: bool)
    requires
        hooks_of(*old(doc)) is Table,
        entry_error(event@, entry(hooks_of(*old(doc))->Table_0, event@)) is None,
    ensures
        *final(doc) == apply_event(*old(doc), event@, command@, install),
        hooks_of(*final(doc)) == HooksView::Table(
            set_entry(
                hooks_of(*old(doc))->Table_0,
                event@,
                planned_entry(
                    entry(hooks_of(*old(doc))->Table_0, event@),
                    command@,
                    install,
                    marked_at(*old(doc), event@),
                ),
            ),
        ),
        kept_apart(*old(doc), *final(doc), event@),
        layout_kept(*old(doc), *final(doc), event@, command@, install),
{
    let ghost d = *doc;
    let ghost m = hooks_of(*doc)->Table_0;
    match read_hook(doc, event) {
        None => {
            if install {
                set_hook_text(doc, event, command);
            }
            assert(set_entry(m, event@, planned_entry(None, command@, install, marked_at(d, event@)))
                =~= hooks_of(*doc)->Table_0);
        },
        Some(HookEntry::Text(s)) => {
            if same_text(s.as_str(), command) {
                if !install {
                    remove_hook(doc, event);
                }
            } else if install {
                let decor = read_hook_decor(doc, event);
                wrap_hook(doc, event);
                let ghost d1 = *doc;
                push_marked_hook(doc, event, command, COMPOSED_MARK);
                let ghost d2 = *doc;
                set_hook_decor(doc, event, decor);
                proof {
                    lemma_kept_apart_chain(d, d1, d2, event@);
                    lemma_kept_apart_chain(d, d2, *doc, event@);
                    assert(seq![Some(s@)].push(Some(command@)) =~= seq![Some(s@), Some(command@)]);
                }
            }
            assert(set_entry(
                m,
                event@,
                planned_entry(Some(HookValue::Text(s@)), command@, install, marked_at(d, event@)),
            ) =~= hooks_of(*doc)->Table_0);
        },
        Some(HookEntry::List(l)) => {
            let ghost ml = texts(l@);
            let (present, all_command) = scan_list(&l, command);
            proof {
                lemma_without_empty(ml, command@);
            }
            if install {
                if !present {
                    push_hook(doc, event, command);
                    proof {
                        reveal_strlit(" # herdr-jcode: was a single hook\n");
                        reveal_strlit("");
                        assert(COMPOSED_MARK@.len() > 0 && ""@.len() == 0);
                    }
                }
            } else if restorable(&l, command) && carries_mark(doc, event) {
                let decor = read_hook_decor(doc, event);
                retain_hook(doc, event, command);
                let ghost d1 = *doc;
                proof {
                    lemma_without_pair(ml[0]->Some_0, command@);
                    assert(ml =~= seq![ml[0], Some(command@)]);
                }
                unwrap_hook(doc, event);
                let ghost d2 = *doc;
                set_hook_decor(doc, event, decor);
                proof {
                    lemma_kept_apart_chain(d, d1, d2, event@);
                    lemma_kept_apart_chain(d, d2, *doc, event@);
                }
            } else {
                if present {
                    retain_hook(doc, event, command);
                }
                if all_command {
                    let ghost d1 = *doc;
                    remove_hook(doc, event);
                    proof {
                        if present {
                            lemma_kept_apart_chain(d, d1, *doc, event@);
                        }
                    }
                }
            }
            proof {
                if !present {
                    lemma_without_absent(ml, command@);
                }
            }
            assert(set_entry(
                m,
                event@,
                planned_entry(Some(HookValue::List(ml)), command@, install, marked_at(d, event@)),
            ) =~= hooks_of(*doc)->Table_0);
        },
        Some(HookEntry::Other) => {
            assert(false);
        },
    }
}

/// Whether the array is `[s, command]` with `s` a string other than `command`.
fn restorable(l: &Vec<Option<String>>, command: &str) -> (r: bool)
    ensures
        r == (texts(l@).len() == 2 && texts(l@)[0] is Some && texts(l@)[0] != Some(command@)
            && texts(l@)[1] == Some(command@)),
{
    if l.len() != 2 {
        return false;
    }
    let ghost ml = texts(l@);
    assert(ml[0] == opt_text(l@[0]) && ml[1] == opt_text(l@[1]));
    match (&l[0], &l[1]) {
        (Some(a), Some(b)) => !same_text(a.as_str(), command) && same_text(b.as_str(), command),
        _ => false,
    }
}

/// Whether the second element of the array under `event` carries the mark of a
/// composed array.
fn carries_mark(doc: &DocumentMut, event: &str) -> (r: bool)
    requires
        hooks_of(*doc) is Table,
        entry(hooks_of(*doc)->Table_0, event@) matches Some(HookValue::List(l)) && l.len() == 2,
    ensures
        r == marked_at(*doc, event@),
{
    match read_tail(doc, event, 1) {
        Some(t) => same_text(t.as_str(), COMPOSED_MARK),
        None => false,
    }
}

/// Removing `c` from `[s, c]` leaves `[s]`.
pub proof fn lemma_without_pair(s: Seq<char>, c: Seq<char>)
    requires
        s != c,
    ensures
        without(seq![Some(s), Some(c)], c) == seq![Some(s)],
{
    let l = seq![Some(s), Some(c)];
    let one = seq![Some(s)];
    let none = Seq::<Option<Seq<char>>>::empty();
    assert(l.drop_last() =~= one);
    assert(l.last() == Some(c));
    assert(without(l, c) == without(one, c));
    assert(one.drop_last() =~= none);
    assert(one.last() == Some(s));
    assert(without(none, c) == none);
    assert(without(one, c) == without(none, c).push(Some(s)));
    assert(none.push(Some(s)) =~= one);
}

/// Whether the array holds the string `command`, and whether every element is that string.
fn scan_list(l: &Vec<Option<String>>, command: &str) -> (r: (bool, bool))
    ensures
        r.0 == texts(l@).contains(Some(command@)),
        r.1 == (forall|k: int|
            0 <= k < l@.len() ==> #[trigger] texts(l@)[k]
                == Some(command@)),
{
    let ghost ml = texts(l@);
    let mut present = false;
    let mut all = true;
    let mut j: usize = 0;
    while j < l.len()
        invariant
            j <= l.len(),
            ml == texts(l@),
            present == (exists|k: int| 0 <= k < j && ml[k] == Some(command@)),
            all == (forall|k: int| 0 <= k < j ==> ml[k] == Some(command@)),
        decreases l.len() - j,
    {
        let same = match &l[j] {
            Some(t) => same_text(t.as_str(), command),
            None => false,
        };
        assert(same == (ml[j as int] == Some(command@)));
        if same {
            present = true;
        } else {
            all = false;
        }
        j = j + 1;
    }
    proof {
        if present {
            let k = choose|k: int| 0 <= k < l.len() && ml[k] == Some(command@);
            assert(ml.contains(Some(command@)));
        }
    }
    (present, all)
}

/// `without` drops exactly the elements equal to `c`: it is empty when every element is
/// `c`, and not otherwise.
proof fn lemma_without_empty(l: Seq<Option<Seq<char>>>, c: Seq<char>)
    ensures
        (without(l, c).len() == 0) == (forall|k: int| 0 <= k < l.len() ==> l[k] == Some(c)),
    decreases l.len(),
{
    if l.len() > 0 {
        lemma_without_empty(l.drop_last(), c);
        if l.last() == Some(c) {
            if forall|k: int| 0 <= k < l.len() - 1 ==> l.drop_last()[k] == Some(c) {
                assert forall|k: int| 0 <= k < l.len() implies l[k] == Some(c) by {
                    if k < l.len() - 1 {
                        assert(l[k] == l.drop_last()[k]);
                    }
                }
            } else {
                let k = choose|k: int| 0 <= k < l.len() - 1 && l.drop_last()[k] != Some(c);
                assert(l[k] == l.drop_last()[k]);
            }
        } else {
            assert(l[l.len() - 1] != Some(c));
        }
    }
}

/// Removing an element that is not there leaves the sequence as it was.
pub proof fn lemma_without_absent(l: Seq<Option<Seq<char>>>, c: Seq<char>)
    requires
        !l.contains(Some(c)),
    ensures
        without(l, c) == l,
    decreases l.len(),
{
    if l.len() > 0 {
        assert(!l.drop_last().contains(Some(c))) by {
            if l.drop_last().contains(Some(c)) {
                let k = choose|k: int| 0 <= k < l.len() - 1 && l.drop_last()[k] == Some(c);
                assert(l[k] == Some(c));
            }
        }
        lemma_without_absent(l.drop_last(), c);
        assert(l.last() != Some(c));
        assert(l.drop_last().push(l.last()) =~= l);
    }
}

/// The entry of the `i`-th event is not touched by the edit of the events before it.
proof fn lemma_untouched_entry(
    m: Map<Seq<char>, HookValue>,
    t: spec_fn(Seq<char>) -> bool,
    c: Seq<char>,
    install: bool,
    n: int,
    key: Seq<char>,
)
    requires
        0 <= n <= EVENT_COUNT,
        forall|j: int| 0 <= j < n ==> event_name(j) != key,
    ensures
        entry(planned_upto(m, t, c, install, n), key) == entry(m, key),
    decreases n,
{
    if n > 0 {
        lemma_untouched_entry(m, t, c, install, n - 1, key);
    }
}

/// Every event's entry passes validation when the whole table does.
proof fn lemma_valid_entry(m: Map<Seq<char>, HookValue>, i: int)
    requires
        validation(m) is None,
        0 <= i < EVENT_COUNT,
    ensures
        entry_error(event_name(i), entry(m, event_name(i))) is None,
{
    lemma_validation_from(m, 0, i);
}

proof fn lemma_validation_from(m: Map<Seq<char>, HookValue>, from: int, i: int)
    requires
        validation_from(m, from) is None,
        0 <= from <= i < EVENT_COUNT,
    ensures
        entry_error(event_name(i), entry(m, event_name(i))) is None,
    decreases i - from,
{
    if from < i {
        lemma_validation_from(m, from + 1, i);
    }
}

/// `std::str::from_utf8`: the text the bytes encode, if they are valid UTF-8.
#[verifier::external_body]
fn utf8_text(bytes: &[u8]) -> (r: Option<String>)
    ensures
        r is Some <==> valid_utf8(bytes@),
        r matches Some(s) ==> s@ == decode_utf8(bytes@),
{
    match std::str::from_utf8(bytes) {
        Ok(s) => Some(s.to_string()),
        Err(_) => None,
    }
}

/// What an update writes, given the current bytes of the configuration file (`None`
/// when it does not exist): `Ok(None)` when nothing is to be written, `Ok(Some(text))`
/// for the new text, or the error that stops the update.
pub open spec fn update_plan(existing: Option<Seq<u8>>, c: Seq<char>, install: bool) -> Result<
    Option<Seq<char>>,
    Seq<char>,
> {
    if existing is None && !install {
        Ok(None)
    } else if existing matches Some(b) && !valid_utf8(b) {
        Err("config must be UTF-8"@)
    } else {
        let input = match existing {
            Some(b) => decode_utf8(b),
            None => Seq::empty(),
        };
        match edit_outcome(input, c, install) {
            Err(e) => Err(e),
            Ok(out) => if out == input {
                Ok(None)
            } else {
                Ok(Some(out))
            },
        }
    }
}

/// A plan with its texts.
pub open spec fn plan_text(r: Result<Option<String>, String>) -> Result<Option<Seq<char>>, Seq<char>> {
    match r {
        Ok(Some(s)) => Ok(Some(s@)),
        Ok(None) => Ok(None),
        Err(e) => Err(e@),
    }
}

/// Decides what an update of the configuration file writes, from its current bytes.
pub fn plan_update(existing: Option<&[u8]>, command: &str, install: bool) -> (r: Result<
    Option<String>,
    String,
>)
    ensures
        plan_text(r) == update_plan(
            match existing {
                Some(b) => Some(b@),
                None => None,
            },
            command@,
            install,
        ),
        existing is None && install && command@.len() > 0 ==> r is Ok,
{
    if existing.is_none() && !install {
        return Ok(None);
    }
    let input = match existing {
        Some(bytes) => match utf8_text(bytes) {
            Some(text) => text,
            None => return Err(owned("config must be UTF-8")),
        },
        None => String::new(),
    };
    let output = edit_config(input.as_str(), command, install)?;
    if same_text(output.as_str(), input.as_str()) {
        Ok(None)
    } else {
        Ok(Some(output))
    }
}

/// The identity and contents of the configuration file as the updater last read them.
pub struct FileSnapshot {
    pub dev: u64,
    pub ino: u64,
    pub mode: u32,
    pub uid: u32,
    pub gid: u32,
    pub bytes: Vec<u8>,
}

/// Whether two readings of the file show the same file, unchanged: both absent, or the
/// same device, inode, mode, owner, group and bytes.
pub open spec fn same_snapshot(a: Option<FileSnapshot>, b: Option<FileSnapshot>) -> bool {
    match (a, b) {
        (None, None) => true,
        (Some(x), Some(y)) => x.dev == y.dev && x.ino == y.ino && x.mode == y.mode && x.uid == y.uid
            && x.gid == y.gid && x.bytes@ == y.bytes@,
        _ => false,
    }
}

/// Whether the file did not change between two readings.
pub fn snapshots_agree(a: &Option<FileSnapshot>, b: &Option<FileSnapshot>) -> (r: bool)
    ensures
        r == same_snapshot(*a, *b),
{
    match (a, b) {
        (None, None) => true,
        (Some(x), Some(y)) => x.dev == y.dev && x.ino == y.ino && x.mode == y.mode && x.uid == y.uid
            && x.gid == y.gid && same_bytes(&x.bytes, &y.bytes),
        _ => false,
    }
}

/// Whether two byte vectors are equal.
fn same_bytes(a: &Vec<u8>, b: &Vec<u8>) -> (r: bool)
    ensures
        r == (a@ == b@),
{
    if a.len() != b.len() {
        return false;
    }
    let mut i: usize = 0;
    while i < a.len()
        invariant
            a.len() == b.len(),
            i <= a.len(),
            forall|j: int| 0 <= j < i ==> a@[j] == b@[j],
        decreases a.len() - i,
    {
        if a[i] != b[i] {
            return false;
        }
        i = i + 1;
    }
    assert(a@ =~= b@);
    true
}

/// Whether the configuration path may be edited: a regular file, not a symbolic link,
/// with a single hard link.
pub fn acceptable_config_file(is_file: bool, is_symlink: bool, links: u64) -> (r: bool)
    ensures
        r == (is_file && !is_symlink && links == 1),
{
    is_file && !is_symlink && links == 1
}

} // verus!

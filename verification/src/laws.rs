//! What the configuration edit promises as a whole, proved over its model.
use crate::config::{
    apply_event, apply_upto, command_for_text, edit_document, edit_outcome, escape_char, escaped,
    lemma_without_pair, prepared,
};
use crate::document::{hooks_of, rendered, toml_parse};
use crate::hooks::{
    carries, commands, composed, entry, entry_error, event_name, is_event, lemma_event_names_distinct,
    planned, planned_entry, planned_upto, set_entry, validation, validation_from, without,
    HookValue, HooksView, EVENT_COUNT,
};
use toml_edit::DocumentMut;
use vstd::prelude::*;

verus! {

/// After the edit of the first `n` events, each of them holds its planned value and every
/// other key holds its value from before.
proof fn lemma_planned_upto_entry(
    m: Map<Seq<char>, HookValue>,
    t: spec_fn(Seq<char>) -> bool,
    c: Seq<char>,
    install: bool,
    n: int,
    key: Seq<char>,
)
    requires
        0 <= n <= EVENT_COUNT,
    ensures
        entry(planned_upto(m, t, c, install, n), key) == if exists|j: int|
            0 <= j < n && event_name(j) == key {
            planned_entry(entry(m, key), c, install, t(key))
        } else {
            entry(m, key)
        },
    decreases n,
{
    lemma_event_names_distinct();
    if n > 0 {
        lemma_planned_upto_entry(m, t, c, install, n - 1, key);
        if event_name(n - 1) == key {
            if exists|j: int| 0 <= j < n - 1 && event_name(j) == key {
                let j = choose|j: int| 0 <= j < n - 1 && event_name(j) == key;
                assert(event_name(j) != event_name(n - 1));
            }
        } else {
            if exists|j: int| 0 <= j < n && event_name(j) == key {
                let j = choose|j: int| 0 <= j < n && event_name(j) == key;
                assert(j < n - 1);
            }
        }
    }
}

/// The value of `key` after the whole edit: its planned value for an event, its old
/// value otherwise.
pub proof fn lemma_planned_entry(
    m: Map<Seq<char>, HookValue>,
    t: spec_fn(Seq<char>) -> bool,
    c: Seq<char>,
    install: bool,
    key: Seq<char>,
)
    ensures
        entry(planned(m, t, c, install), key) == if is_event(key) {
            planned_entry(entry(m, key), c, install, t(key))
        } else {
            entry(m, key)
        },
{
    lemma_planned_upto_entry(m, t, c, install, EVENT_COUNT as int, key);
}

/// Two tables are equal when every key has the same value in both.
proof fn lemma_same_entries(a: Map<Seq<char>, HookValue>, b: Map<Seq<char>, HookValue>)
    requires
        forall|k: Seq<char>| entry(a, k) == entry(b, k),
    ensures
        a == b,
{
    assert forall|k: Seq<char>| a.dom().contains(k) <==> b.dom().contains(k) by {
        assert(entry(a, k) == entry(b, k));
    }
    assert forall|k: Seq<char>| a.dom().contains(k) implies a[k] == b[k] by {
        assert(entry(a, k) == entry(b, k));
    }
    assert(a =~= b);
}

/// A table that passes validation holds no invalid value under any event.
proof fn lemma_valid_events(m: Map<Seq<char>, HookValue>, key: Seq<char>)
    requires
        validation(m) is None,
        is_event(key),
    ensures
        entry_error(key, entry(m, key)) is None,
{
    let i = choose|i: int| 0 <= i < EVENT_COUNT && event_name(i) == key;
    lemma_validation_upto(m, 0, i);
}

proof fn lemma_validation_upto(m: Map<Seq<char>, HookValue>, from: int, i: int)
    requires
        validation_from(m, from) is None,
        0 <= from <= i < EVENT_COUNT,
    ensures
        entry_error(event_name(i), entry(m, event_name(i))) is None,
    decreases i - from,
{
    if from < i {
        lemma_validation_upto(m, from + 1, i);
    }
}

/// `without` keeps the other elements in order and drops every `c`.
proof fn lemma_without_drops(l: Seq<Option<Seq<char>>>, c: Seq<char>)
    ensures
        !without(l, c).contains(Some(c)),
        !l.contains(Some(c)) ==> without(l, c) == l,
        without(l, c).len() <= l.len(),
    decreases l.len(),
{
    if l.len() > 0 {
        lemma_without_drops(l.drop_last(), c);
        let w = without(l.drop_last(), c);
        if l.last() != Some(c) {
            assert forall|k: int| 0 <= k < w.push(l.last()).len() implies w.push(l.last())[k]
                != Some(c) by {
                if k < w.len() {
                    assert(w.push(l.last())[k] == w[k]);
                }
            }
        }
        if !l.contains(Some(c)) {
            assert(!l.drop_last().contains(Some(c))) by {
                if l.drop_last().contains(Some(c)) {
                    let k = choose|k: int|
                        0 <= k < l.drop_last().len() && l.drop_last()[k] == Some(c);
                    assert(l[k] == Some(c));
                }
            }
            assert(l.last() != Some(c)) by {
                assert(l[l.len() - 1] == l.last());
            }
            assert(l.drop_last().push(l.last()) =~= l);
        }
    }
}

/// `without` on a single element.
proof fn lemma_without_single(x: Option<Seq<char>>, c: Seq<char>)
    ensures
        without(seq![x], c) == if x == Some(c) {
            Seq::<Option<Seq<char>>>::empty()
        } else {
            seq![x]
        },
{
    let one = seq![x];
    let empty = Seq::<Option<Seq<char>>>::empty();
    assert(one.drop_last() =~= empty);
    assert(one.last() == x);
    assert(without(empty, c) == empty);
    assert(empty.push(x) =~= one);
}

/// Removing twice removes as much as removing once.
proof fn lemma_without_twice(l: Seq<Option<Seq<char>>>, c: Seq<char>)
    ensures
        without(without(l, c), c) == without(l, c),
{
    lemma_without_drops(l, c);
    lemma_without_drops(without(l, c), c);
}

/// Installing gives every lifecycle event the command, placed after the user's hooks,
/// which stay in their order; an event that already has the command is left as it is.
pub proof fn law_install_appends_command(
    m: Map<Seq<char>, HookValue>,
    t: spec_fn(Seq<char>) -> bool,
    c: Seq<char>,
    key: Seq<char>,
)
    requires
        validation(m) is None,
        is_event(key),
    ensures
        commands(entry(planned(m, t, c, true), key)) == if carries(entry(m, key), c) {
            commands(entry(m, key))
        } else {
            commands(entry(m, key)).push(Some(c))
        },
        carries(entry(planned(m, t, c, true), key), c),
{
    lemma_planned_entry(m, t, c, true, key);
    lemma_valid_events(m, key);
    match entry(m, key) {
        None => {
            assert(seq![Some(c)] =~= Seq::<Option<Seq<char>>>::empty().push(Some(c)));
        },
        Some(HookValue::Text(s)) => {
            if s != c {
                assert(seq![Some(s), Some(c)] =~= seq![Some(s)].push(Some(c)));
            }
        },
        Some(HookValue::List(l)) => {
            if !l.contains(Some(c)) {
                assert(l.push(Some(c))[l.len() as int] == Some(c));
            }
        },
        Some(HookValue::Other) => {},
    }
}

/// Removing takes the command out of every lifecycle event and keeps the user's other
/// hooks in their order.
pub proof fn law_remove_drops_command(
    m: Map<Seq<char>, HookValue>,
    t: spec_fn(Seq<char>) -> bool,
    c: Seq<char>,
    key: Seq<char>,
)
    requires
        validation(m) is None,
        is_event(key),
    ensures
        commands(entry(planned(m, t, c, false), key)) == without(commands(entry(m, key)), c),
        !carries(entry(planned(m, t, c, false), key), c),
{
    lemma_planned_entry(m, t, c, false, key);
    lemma_valid_events(m, key);
    match entry(m, key) {
        None => {},
        Some(HookValue::Text(s)) => {
            lemma_without_single(Some(s), c);
        },
        Some(HookValue::List(l)) => {
            lemma_without_drops(l, c);
            if composed(l, c, t(key)) {
                lemma_without_pair(l[0]->Some_0, c);
                assert(l =~= seq![l[0], Some(c)]);
            } else if without(l, c).len() == 0 {
                assert(without(l, c) =~= Seq::<Option<Seq<char>>>::empty());
            }
        },
        Some(HookValue::Other) => {},
    }
}

/// The edit leaves every key of the hooks table other than the lifecycle events as it was.
pub proof fn law_other_keys_kept(
    m: Map<Seq<char>, HookValue>,
    t: spec_fn(Seq<char>) -> bool,
    c: Seq<char>,
    install: bool,
    key: Seq<char>,
)
    requires
        !is_event(key),
    ensures
        entry(planned(m, t, c, install), key) == entry(m, key),
{
    lemma_planned_entry(m, t, c, install, key);
}

/// Installing a second time changes nothing.
pub proof fn law_install_idempotent(
    m: Map<Seq<char>, HookValue>,
    t1: spec_fn(Seq<char>) -> bool,
    t2: spec_fn(Seq<char>) -> bool,
    c: Seq<char>,
)
    requires
        validation(m) is None,
    ensures
        planned(planned(m, t1, c, true), t2, c, true) == planned(m, t1, c, true),
{
    let once = planned(m, t1, c, true);
    assert forall|k: Seq<char>| entry(planned(once, t2, c, true), k) == entry(once, k) by {
        lemma_planned_entry(once, t2, c, true, k);
        lemma_planned_entry(m, t1, c, true, k);
        if is_event(k) {
            law_install_appends_command(m, t1, c, k);
        }
    }
    lemma_same_entries(planned(once, t2, c, true), once);
}

/// Removing a second time changes nothing.
pub proof fn law_remove_idempotent(
    m: Map<Seq<char>, HookValue>,
    t1: spec_fn(Seq<char>) -> bool,
    t2: spec_fn(Seq<char>) -> bool,
    c: Seq<char>,
)
    requires
        validation(m) is None,
    ensures
        planned(planned(m, t1, c, false), t2, c, false) == planned(m, t1, c, false),
{
    let once = planned(m, t1, c, false);
    assert forall|k: Seq<char>| entry(planned(once, t2, c, false), k) == entry(once, k) by {
        lemma_planned_entry(once, t2, c, false, k);
        lemma_planned_entry(m, t1, c, false, k);
        if is_event(k) {
            lemma_valid_events(m, k);
            match entry(m, k) {
                Some(HookValue::List(l)) => {
                    lemma_without_twice(l, c);
                    lemma_without_drops(l, c);
                    let w = without(l, c);
                    if w.len() == 2 && w[1] == Some(c) {
                        assert(w.contains(Some(c)));
                    }
                },
                _ => {},
            }
        }
    }
    lemma_same_entries(planned(once, t2, c, false), once);
}

/// Whether every lifecycle event holds nothing, a string other than `c`, or a non-empty
/// array of the user's own hooks without `c`.
pub open spec fn user_hooks_only(m: Map<Seq<char>, HookValue>, c: Seq<char>) -> bool {
    forall|k: Seq<char>|
        is_event(k) ==> match #[trigger] entry(m, k) {
            None => true,
            Some(HookValue::Text(s)) => s != c,
            Some(HookValue::List(l)) => l.len() > 0 && !l.contains(Some(c)),
            _ => false,
        }
}

/// Whether `t` reads the marks installing leaves on the hooks `m` had before: a string
/// made into an array carries the mark, and a one-element array of the user's does not
/// (`edit_config` states both as `layout_kept`).
pub open spec fn installed_layout(m: Map<Seq<char>, HookValue>, t: spec_fn(Seq<char>) -> bool) -> bool {
    forall|k: Seq<char>|
        is_event(k) ==> match #[trigger] entry(m, k) {
            Some(HookValue::Text(_)) => t(k),
            Some(HookValue::List(l)) => l.len() == 1 ==> !t(k),
            _ => true,
        }
}

/// Removing restores the hooks table that installing started from, strings included:
/// the marked array `[s, c]` that installing made of a string `s` becomes `s` again,
/// and a user's array keeps being an array.
pub proof fn law_remove_undoes_install(
    m: Map<Seq<char>, HookValue>,
    t0: spec_fn(Seq<char>) -> bool,
    t1: spec_fn(Seq<char>) -> bool,
    c: Seq<char>,
)
    requires
        validation(m) is None,
        user_hooks_only(m, c),
        installed_layout(m, t1),
    ensures
        planned(planned(m, t0, c, true), t1, c, false) == m,
{
    let once = planned(m, t0, c, true);
    assert forall|k: Seq<char>| entry(planned(once, t1, c, false), k) == entry(m, k) by {
        lemma_planned_entry(once, t1, c, false, k);
        lemma_planned_entry(m, t0, c, true, k);
        if is_event(k) {
            match entry(m, k) {
                None => {
                    lemma_without_single(Some(c), c);
                },
                Some(HookValue::Text(s)) => {
                    assert(seq![Some(s), Some(c)][0] == Some(s));
                },
                Some(HookValue::List(l)) => {
                    let pushed = l.push(Some(c));
                    assert(pushed.drop_last() =~= l);
                    assert(pushed.last() == Some(c));
                    assert(pushed.contains(Some(c))) by {
                        assert(pushed[l.len() as int] == Some(c));
                    }
                    lemma_without_drops(l, c);
                    assert(without(pushed, c) == l);
                    assert(!composed(pushed, c, t1(k)));
                },
                _ => {},
            }
        }
    }
    lemma_same_entries(planned(once, t1, c, false), m);
}

/// Editing a document whose lifecycle events need no change applies no edit at all.
proof fn lemma_no_edit(d: DocumentMut, m: Map<Seq<char>, HookValue>, c: Seq<char>, install: bool, n: int)
    requires
        hooks_of(d) == HooksView::Table(m),
        0 <= n <= EVENT_COUNT,
        forall|i: int|
            0 <= i < EVENT_COUNT ==> #[trigger] apply_event(d, event_name(i), c, install) == d,
    ensures
        apply_upto(d, c, install, n) == d,
    decreases n,
{
    if n > 0 {
        lemma_no_edit(d, m, c, install, n - 1);
    }
}

/// Installing into a text whose lifecycle events all have the command already edits
/// nothing: the result is the parsed document rendered again.
pub proof fn law_install_into_installed_edits_nothing(input: Seq<char>, c: Seq<char>)
    requires
        c.len() > 0,
        toml_parse(input) is Ok,
        hooks_of(toml_parse(input)->Ok_0) is Table,
        validation(hooks_of(toml_parse(input)->Ok_0)->Table_0) is None,
        forall|k: Seq<char>|
            is_event(k) ==> carries(#[trigger] entry(hooks_of(toml_parse(input)->Ok_0)->Table_0, k), c),
    ensures
        edit_outcome(input, c, true) == Ok::<Seq<char>, Seq<char>>(
            rendered(toml_parse(input)->Ok_0),
        ),
{
    let d = toml_parse(input)->Ok_0;
    let m = hooks_of(d)->Table_0;
    assert forall|i: int| 0 <= i < EVENT_COUNT implies #[trigger] apply_event(
        d,
        event_name(i),
        c,
        true,
    ) == d by {
        assert(is_event(event_name(i)));
        assert(carries(entry(m, event_name(i)), c));
    }
    lemma_no_edit(d, m, c, true, EVENT_COUNT as int);
    assert(prepared(d, true) == d);
}

/// Whether no lifecycle event holds the command `c` or an empty array.
pub open spec fn nowhere(m: Map<Seq<char>, HookValue>, c: Seq<char>) -> bool {
    forall|k: Seq<char>|
        is_event(k) ==> !carries(#[trigger] entry(m, k), c) && !empty_array(entry(m, k))
}

/// Whether a value is an empty array.
pub open spec fn empty_array(v: Option<HookValue>) -> bool {
    match v {
        Some(HookValue::List(l)) => l.len() == 0,
        _ => false,
    }
}

/// Removing a command that no lifecycle event has edits nothing: a text without hooks is
/// returned as it is, and otherwise (when no event holds an empty array, which removal
/// deletes) the result is the parsed document rendered again.
pub proof fn law_remove_absent_edits_nothing(input: Seq<char>, c: Seq<char>)
    requires
        c.len() > 0,
        toml_parse(input) is Ok,
        hooks_of(toml_parse(input)->Ok_0) is Missing || (hooks_of(toml_parse(input)->Ok_0) is Table
            && validation(hooks_of(toml_parse(input)->Ok_0)->Table_0) is None && nowhere(
            hooks_of(toml_parse(input)->Ok_0)->Table_0,
            c,
        )),
    ensures
        hooks_of(toml_parse(input)->Ok_0) is Missing ==> edit_outcome(input, c, false) == Ok::<
            Seq<char>,
            Seq<char>,
        >(input),
        hooks_of(toml_parse(input)->Ok_0) is Table ==> edit_outcome(input, c, false) == Ok::<
            Seq<char>,
            Seq<char>,
        >(rendered(toml_parse(input)->Ok_0)),
{
    let d = toml_parse(input)->Ok_0;
    if hooks_of(d) is Table {
        let m = hooks_of(d)->Table_0;
        assert forall|i: int| 0 <= i < EVENT_COUNT implies #[trigger] apply_event(
            d,
            event_name(i),
            c,
            false,
        ) == d by {
            let k = event_name(i);
            assert(is_event(k));
            assert(!carries(entry(m, k), c));
            match entry(m, k) {
                Some(HookValue::List(l)) => {
                    lemma_without_drops(l, c);
                    if l.len() == 2 && l[1] == Some(c) {
                        assert(l.contains(Some(c)));
                    }
                },
                _ => {},
            }
        }
        lemma_no_edit(d, m, c, false, EVENT_COUNT as int);
        assert(prepared(d, false) == d);
    }
}

/// A hooks table with a lifecycle event that is neither a string nor an array of strings
/// is refused before any edit, with the error of the first such event.
pub proof fn law_invalid_hooks_refused(input: Seq<char>, c: Seq<char>, install: bool)
    requires
        c.len() > 0,
        toml_parse(input) is Ok,
        hooks_of(toml_parse(input)->Ok_0) is Table,
        validation(hooks_of(toml_parse(input)->Ok_0)->Table_0) is Some,
    ensures
        edit_outcome(input, c, install) == Err::<Seq<char>, Seq<char>>(
            validation(hooks_of(toml_parse(input)->Ok_0)->Table_0)->Some_0,
        ),
{
    let d = toml_parse(input)->Ok_0;
    assert(prepared(d, install) == d);
}

/// Escaping never shortens a text.
proof fn lemma_escaped_len(s: Seq<char>)
    ensures
        escaped(s).len() >= s.len(),
    decreases s.len(),
{
    if s.len() > 0 {
        lemma_escaped_len(s.drop_last());
    }
}

/// Two texts with the same escaped form are the same text.
proof fn lemma_escaped_injective(a: Seq<char>, b: Seq<char>)
    requires
        escaped(a) == escaped(b),
    ensures
        a == b,
    decreases a.len(),
{
    lemma_escaped_len(a);
    lemma_escaped_len(b);
    if a.len() == 0 {
        assert(b.len() == 0);
        assert(a =~= b);
    } else {
        assert(b.len() > 0) by {
            if b.len() == 0 {
                assert(escaped(b).len() == 0);
            }
        }
        let ea = escape_char(a.last());
        let eb = escape_char(b.last());
        let pa = escaped(a.drop_last());
        let pb = escaped(b.drop_last());
        assert(escaped(a) == pa + ea);
        assert(escaped(b) == pb + eb);
        assert(ea.last() == a.last());
        assert(eb.last() == b.last());
        assert((pa + ea).last() == ea.last());
        assert((pb + eb).last() == eb.last());
        assert(a.last() == b.last());
        assert(ea == eb);
        assert(pa =~= (pa + ea).subrange(0, pa.len() as int));
        assert(pb =~= (pb + eb).subrange(0, pb.len() as int));
        lemma_escaped_injective(a.drop_last(), b.drop_last());
        assert(a =~= a.drop_last().push(a.last()));
        assert(b =~= b.drop_last().push(b.last()));
    }
}

/// Distinct executable paths give distinct hook commands: the quoted, escaped path
/// determines the path.
pub proof fn law_distinct_paths_distinct_commands(t1: Seq<char>, t2: Seq<char>)
    requires
        command_for_text(t1) is Ok,
        command_for_text(t2) is Ok,
        t1 != t2,
    ensures
        command_for_text(t1) != command_for_text(t2),
{
    reveal_strlit("\" report");
    let tail = "\" report"@;
    let e1 = escaped(t1);
    let e2 = escaped(t2);
    let c1 = seq!['"'] + e1 + tail;
    let c2 = seq!['"'] + e2 + tail;
    assert(command_for_text(t1) == Ok::<Seq<char>, Seq<char>>(c1));
    assert(command_for_text(t2) == Ok::<Seq<char>, Seq<char>>(c2));
    if c1 == c2 {
        assert(c1.len() == 1 + e1.len() + tail.len());
        assert(c2.len() == 1 + e2.len() + tail.len());
        assert(e1.len() == e2.len());
        assert(e1 =~= c1.subrange(1, 1 + e1.len() as int));
        assert(e2 =~= c2.subrange(1, 1 + e2.len() as int));
        lemma_escaped_injective(t1, t2);
    }
}

} // verus!

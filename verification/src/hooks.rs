//! The model of Jcode's `[hooks]` table and of the edit that installs or
//! removes this plugin's command in it.
use vstd::prelude::*;

verus! {

/// Number of lifecycle events whose hooks the plugin manages.
pub const EVENT_COUNT: usize = 4;

/// The name of the `i`-th lifecycle event, in the order the editor visits them.
pub open spec fn event_name(i: int) -> Seq<char> {
    if i == 0 {
        "session_start"@
    } else if i == 1 {
        "turn_start"@
    } else if i == 2 {
        "turn_end"@
    } else {
        "session_end"@
    }
}

/// Whether `key` is one of the lifecycle event names.
pub open spec fn is_event(key: Seq<char>) -> bool {
    exists|i: int| 0 <= i < EVENT_COUNT && event_name(i) == key
}

/// The four event names are pairwise distinct.
pub proof fn lemma_event_names_distinct()
    ensures
        forall|i: int, j: int|
            0 <= i < EVENT_COUNT && 0 <= j < EVENT_COUNT && i != j ==> event_name(i) != event_name(j),
{
    reveal_strlit("session_start");
    reveal_strlit("turn_start");
    reveal_strlit("turn_end");
    reveal_strlit("session_end");
    assert(event_name(0).len() == 13);
    assert(event_name(1).len() == 10);
    assert(event_name(2).len() == 8);
    assert(event_name(3).len() == 11);
}

/// The value stored under one key of the hooks table.
pub enum HookValue {
    /// A string: a single hook command.
    Text(Seq<char>),
    /// An array, element by element: `Some` text for a string, `None` for any other value.
    List(Seq<Option<Seq<char>>>),
    /// Any other TOML value or item.
    Other,
}

/// What a document holds under its top-level `hooks` key.
pub enum HooksView {
    /// No `hooks` item.
    Missing,
    /// A `hooks` item that is neither a table nor an inline table.
    NotTable,
    /// A table (or inline table): each key with its value.
    Table(Map<Seq<char>, HookValue>),
}

/// The value of `key` in `m`, if any.
pub open spec fn entry(m: Map<Seq<char>, HookValue>, key: Seq<char>) -> Option<HookValue> {
    if m.dom().contains(key) {
        Some(m[key])
    } else {
        None
    }
}

/// The error the editor reports for the value of `event`, or `None` when the value is
/// absent, a string, or an array of strings only.
pub open spec fn entry_error(event: Seq<char>, v: Option<HookValue>) -> Option<Seq<char>> {
    match v {
        Some(HookValue::List(l)) => if l.contains(None) {
            Some(event + " array must contain only strings"@)
        } else {
            None
        },
        Some(HookValue::Other) => Some(event + " must be a string or array"@),
        _ => None,
    }
}

/// The first error among the events from the `i`-th on, in event order.
pub open spec fn validation_from(m: Map<Seq<char>, HookValue>, i: int) -> Option<Seq<char>>
    decreases EVENT_COUNT - i,
{
    if i < 0 || i >= EVENT_COUNT {
        None
    } else {
        match entry_error(event_name(i), entry(m, event_name(i))) {
            Some(e) => Some(e),
            None => validation_from(m, i + 1),
        }
    }
}

/// The error that stops an edit of the hooks table `m`, if any.
pub open spec fn validation(m: Map<Seq<char>, HookValue>) -> Option<Seq<char>> {
    validation_from(m, 0)
}

/// `l` without any element equal to the string `c`, in order.
pub open spec fn without(l: Seq<Option<Seq<char>>>, c: Seq<char>) -> Seq<Option<Seq<char>>>
    decreases l.len(),
{
    if l.len() == 0 {
        l
    } else if l.last() == Some(c) {
        without(l.drop_last(), c)
    } else {
        without(l.drop_last(), c).push(l.last())
    }
}

/// Whether the value `v` carries the command `c`.
pub open spec fn carries(v: Option<HookValue>, c: Seq<char>) -> bool {
    match v {
        Some(HookValue::Text(s)) => s == c,
        Some(HookValue::List(l)) => l.contains(Some(c)),
        _ => false,
    }
}

/// The commands a value holds, in order: none when absent, one for a string,
/// each element for an array.
pub open spec fn commands(v: Option<HookValue>) -> Seq<Option<Seq<char>>> {
    match v {
        Some(HookValue::Text(s)) => seq![Some(s)],
        Some(HookValue::List(l)) => l,
        _ => Seq::empty(),
    }
}

/// The value of one event after the edit: installing adds `c` (a missing value becomes
/// the string `c`, another string `s` becomes the array `[s, c]` with `c` marked as
/// composed, an array gains `c` at its end) unless it is already there; removing takes
/// every `c` out (a string equal to `c` or an array left empty disappears, and an array
/// `[s, c]` whose `c` carries the mark, as installing writes it, becomes the string `s`
/// again). `marked` tells whether the array's second element carries the mark.
pub open spec fn planned_entry(v: Option<HookValue>, c: Seq<char>, install: bool, marked: bool) -> Option<
    HookValue,
> {
    match v {
        None => if install {
            Some(HookValue::Text(c))
        } else {
            None
        },
        Some(HookValue::Text(s)) => if s == c {
            if install {
                v
            } else {
                None
            }
        } else if install {
            Some(HookValue::List(seq![Some(s), Some(c)]))
        } else {
            v
        },
        Some(HookValue::List(l)) => if install {
            if l.contains(Some(c)) {
                v
            } else {
                Some(HookValue::List(l.push(Some(c))))
            }
        } else if composed(l, c, marked) {
            Some(HookValue::Text(l[0]->Some_0))
        } else if without(l, c).len() == 0 {
            None
        } else {
            Some(HookValue::List(without(l, c)))
        },
        Some(HookValue::Other) => v,
    }
}

/// Whether an array is one that installing `c` made of a string: `[s, c]` with `s` a
/// string other than `c`, and `c` carrying the mark (`marked`).
pub open spec fn composed(l: Seq<Option<Seq<char>>>, c: Seq<char>, marked: bool) -> bool {
    marked && l.len() == 2 && l[0] is Some && l[0] != Some(c) && l[1] == Some(c)
}

/// `m` with the value of `key` set to `v`, or removed when `v` is `None`.
pub open spec fn set_entry(m: Map<Seq<char>, HookValue>, key: Seq<char>, v: Option<HookValue>) -> Map<
    Seq<char>,
    HookValue,
> {
    match v {
        Some(x) => m.insert(key, x),
        None => m.remove(key),
    }
}

/// The hooks table after the edit of the first `n` events; `marks` tells for each key
/// whether its array's second element carries the mark of a composed array.
pub open spec fn planned_upto(
    m: Map<Seq<char>, HookValue>,
    marks: spec_fn(Seq<char>) -> bool,
    c: Seq<char>,
    install: bool,
    n: int,
) -> Map<Seq<char>, HookValue>
    decreases n,
{
    if n <= 0 {
        m
    } else {
        let prev = planned_upto(m, marks, c, install, n - 1);
        set_entry(
            prev,
            event_name(n - 1),
            planned_entry(entry(prev, event_name(n - 1)), c, install, marks(event_name(n - 1))),
        )
    }
}

/// The hooks table after installing (`install`) or removing the command `c` from `m`.
pub open spec fn planned(
    m: Map<Seq<char>, HookValue>,
    marks: spec_fn(Seq<char>) -> bool,
    c: Seq<char>,
    install: bool,
) -> Map<Seq<char>, HookValue> {
    planned_upto(m, marks, c, install, EVENT_COUNT as int)
}

} // verus!

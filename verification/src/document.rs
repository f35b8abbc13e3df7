//! The TOML document the configuration editor works on, held by `toml_edit`.
//!
//! Every function here is trusted: it makes one `toml_edit` call and states what the
//! crate's source shows of it over the names below.
use crate::hooks::{entry, without, HookValue, HooksView};
use toml_edit::{Decor, DocumentMut};
use vstd::prelude::*;

verus! {

#[verifier::external_type_specification]
#[verifier::external_body]
pub struct ExDocumentMut(DocumentMut);

#[verifier::external_type_specification]
#[verifier::external_body]
pub struct ExDecor(Decor);

/// One value of the hooks table as plain values.
pub enum HookEntry {
    Text(String),
    List(Vec<Option<String>>),
    Other,
}

/// The text of an optional string.
pub open spec fn opt_text(o: Option<String>) -> Option<Seq<char>> {
    match o {
        Some(s) => Some(s@),
        None => None,
    }
}

/// The texts of array elements read as optional strings.
pub open spec fn texts(v: Seq<Option<String>>) -> Seq<Option<Seq<char>>> {
    v.map_values(|o: Option<String>| opt_text(o))
}

impl HookEntry {
    /// The model of this value.
    pub open spec fn model(self) -> HookValue {
        match self {
            HookEntry::Text(s) => HookValue::Text(s@),
            HookEntry::List(v) => HookValue::List(texts(v@)),
            HookEntry::Other => HookValue::Other,
        }
    }
}

/// What `toml_edit` makes of a text: the document, or the `Display` text of its error.
pub uninterp spec fn toml_parse(input: Seq<char>) -> Result<DocumentMut, Seq<char>>;

/// The `hooks` entry of a document, read as `HooksView` describes it (through
/// `Table::get`, `Item::as_table_like`, `TableLike::get`, `Item::as_value` and
/// `Value::as_str` on array elements).
pub uninterp spec fn hooks_of(doc: DocumentMut) -> HooksView;

/// The text of a document (`DocumentMut`'s `Display`).
pub uninterp spec fn rendered(doc: DocumentMut) -> Seq<char>;

/// The document after `doc["hooks"] = Item::Table(Table::new())`.
pub uninterp spec fn with_hooks_table(doc: DocumentMut) -> DocumentMut;

/// The document after `TableLike::insert(event, value(command))` on its hooks table.
pub uninterp spec fn with_hook_text(doc: DocumentMut, event: Seq<char>, command: Seq<char>) -> DocumentMut;

/// The document after the value under `event` was put alone into a new array
/// (`Array::push`).
pub uninterp spec fn with_wrapped_hook(doc: DocumentMut, event: Seq<char>) -> DocumentMut;

/// The document after `command`, decorated with a space before it and `tail` after it,
/// was appended to the array under `event` (`Array::push_formatted`).
pub uninterp spec fn with_marked_hook(
    doc: DocumentMut,
    event: Seq<char>,
    command: Seq<char>,
    tail: Seq<char>,
) -> DocumentMut;

/// The document after the one-element array under `event` was replaced by its element
/// (`Array::remove`).
pub uninterp spec fn with_unwrapped_hook(doc: DocumentMut, event: Seq<char>) -> DocumentMut;

/// The document after the decor of the value under `event` was set to `decor`.
pub uninterp spec fn with_hook_decor(doc: DocumentMut, event: Seq<char>, decor: Decor) -> DocumentMut;

/// The decor (the whitespace before it and the whitespace and comment after it) of the
/// value under `event` in the hooks table (`Value::decor`).
pub uninterp spec fn hook_decor(doc: DocumentMut, event: Seq<char>) -> Decor;

/// The text after the `i`-th element of the array under `event` (its decor's suffix:
/// whitespace and a comment up to the next comma or the closing bracket), when it is set.
pub uninterp spec fn tail_of(doc: DocumentMut, event: Seq<char>, i: int) -> Option<Seq<char>>;

/// The text of the document without its `hooks` item: every other key, table, value and
/// comment, in order.
pub uninterp spec fn others_of(doc: DocumentMut) -> Seq<char>;

/// An edit of the value under `event` leaves the rest of the document as it was: the
/// text outside the hooks item, and the decor and array layout of every other key.
pub open spec fn kept_apart(before: DocumentMut, after: DocumentMut, event: Seq<char>) -> bool {
    &&& others_of(after) == others_of(before)
    &&& forall|k: Seq<char>| k != event ==> #[trigger] hook_decor(after, k) == hook_decor(before, k)
    &&& forall|k: Seq<char>, i: int| k != event ==> #[trigger] tail_of(after, k, i) == tail_of(before, k, i)
}

/// Whether the value under `event` is a string or an array.
pub open spec fn holds_value(doc: DocumentMut, event: Seq<char>) -> bool {
    hooks_of(doc) is Table && (entry(hooks_of(doc)->Table_0, event) matches Some(v) && (v is Text || v is List))
}

/// The document after `Array::push(command)` on the array under `event`.
pub uninterp spec fn with_pushed_hook(doc: DocumentMut, event: Seq<char>, command: Seq<char>) -> DocumentMut;

/// The document after `Array::retain` kept the elements of the array under `event`
/// that are not the string `command`.
pub uninterp spec fn with_retained_hook(doc: DocumentMut, event: Seq<char>, command: Seq<char>) -> DocumentMut;

/// The document after `TableLike::remove(event)` on its hooks table.
pub uninterp spec fn without_hook(doc: DocumentMut, event: Seq<char>) -> DocumentMut;

/// A parse result with its error by text.
pub open spec fn parse_view(r: Result<DocumentMut, String>) -> Result<DocumentMut, Seq<char>> {
    match r {
        Ok(d) => Ok(d),
        Err(e) => Err(e@),
    }
}

/// `str::parse::<DocumentMut>`: the document, or the error's `Display` text.
#[verifier::external_body]
pub(crate) fn parse_document(input: &str) -> (r: Result<DocumentMut, String>)
    ensures
        parse_view(r) == toml_parse(input@),
        input@.len() == 0 ==> r is Ok && hooks_of(r->Ok_0) is Missing,
{
    match input.parse::<DocumentMut>() {
        Ok(d) => Ok(d),
        Err(e) => Err(e.to_string()),
    }
}

/// `Table::get("hooks")` on the root table: whether a `hooks` item is there.
#[verifier::external_body]
pub(crate) fn hooks_present(doc: &DocumentMut) -> (r: bool)
    ensures
        r == !(hooks_of(*doc) is Missing),
{
    doc.get("hooks").is_some()
}

/// `Item::is_table_like` on the `hooks` item: whether it is a table or an inline table.
#[verifier::external_body]
pub(crate) fn hooks_table_like(doc: &DocumentMut) -> (r: bool)
    requires
        !(hooks_of(*doc) is Missing),
    ensures
        r == (hooks_of(*doc) is Table),
{
    doc["hooks"].is_table_like()
}

/// `TableLike::get(event)` on the hooks table, the item read as plain values.
#[verifier::external_body]
pub(crate) fn read_hook(doc: &DocumentMut, event: &str) -> (r: Option<HookEntry>)
    requires
        hooks_of(*doc) is Table,
    ensures
        match r {
            Some(v) => entry(hooks_of(*doc)->Table_0, event@) == Some(v.model()),
            None => entry(hooks_of(*doc)->Table_0, event@) is None,
        },
{
    let item = doc["hooks"].as_table_like().and_then(|t| t.get(event))?;
    Some(match item.as_value() {
        Some(toml_edit::Value::String(s)) => HookEntry::Text(s.value().to_string()),
        Some(toml_edit::Value::Array(a)) => HookEntry::List(
            a.iter().map(|v| v.as_str().map(String::from)).collect(),
        ),
        _ => HookEntry::Other,
    })
}

/// `doc["hooks"] = Item::Table(Table::new())`: an empty hooks table.
#[verifier::external_body]
pub(crate) fn insert_hooks_table(doc: &mut DocumentMut)
    requires
        hooks_of(*old(doc)) is Missing,
    ensures
        *final(doc) == with_hooks_table(*old(doc)),
        hooks_of(*final(doc)) == HooksView::Table(Map::empty()),
        others_of(*final(doc)) == others_of(*old(doc)),
{
    doc["hooks"] = toml_edit::Item::Table(toml_edit::Table::new());
}

/// `TableLike::insert(event, value(command))` on the hooks table.
#[verifier::external_body]
pub(crate) fn set_hook_text(doc: &mut DocumentMut, event: &str, command: &str)
    requires
        hooks_of(*old(doc)) is Table,
    ensures
        *final(doc) == with_hook_text(*old(doc), event@, command@),
        hooks_of(*final(doc)) == HooksView::Table(
            hooks_of(*old(doc))->Table_0.insert(event@, HookValue::Text(command@)),
        ),
        kept_apart(*old(doc), *final(doc), event@),
{
    doc["hooks"].as_table_like_mut().unwrap().insert(event, toml_edit::value(command));
}

/// `Value::decor`: a copy of the decor of the value under `event`.
#[verifier::external_body]
pub(crate) fn read_hook_decor(doc: &DocumentMut, event: &str) -> (r: Decor)
    requires
        holds_value(*doc, event@),
    ensures
        r == hook_decor(*doc, event@),
{
    doc["hooks"].as_table_like().unwrap().get(event).unwrap().as_value().unwrap().decor().clone()
}

/// The suffix of the `i`-th element's decor in the array under `event`, as text.
#[verifier::external_body]
pub(crate) fn read_tail(doc: &DocumentMut, event: &str, i: usize) -> (r: Option<String>)
    requires
        hooks_of(*doc) is Table,
        entry(hooks_of(*doc)->Table_0, event@) matches Some(HookValue::List(l)) && i < l.len(),
    ensures
        opt_text(r) == tail_of(*doc, event@, i as int),
{
    let array = doc["hooks"].as_table_like().unwrap().get(event).unwrap().as_array().unwrap();
    array.get(i).unwrap().decor().suffix().and_then(|p| p.as_str()).map(String::from)
}

/// `Array::push` into a new array: the string under `event` put alone into an array, its
/// own decor replaced by the default formatting of a first element (no space around it).
#[verifier::external_body]
pub(crate) fn wrap_hook(doc: &mut DocumentMut, event: &str)
    requires
        hooks_of(*old(doc)) is Table,
        entry(hooks_of(*old(doc))->Table_0, event@) matches Some(HookValue::Text(_)),
    ensures
        *final(doc) == with_wrapped_hook(*old(doc), event@),
        hooks_of(*final(doc)) == HooksView::Table(
            hooks_of(*old(doc))->Table_0.insert(
                event@,
                HookValue::List(seq![Some(hooks_of(*old(doc))->Table_0[event@]->Text_0)]),
            ),
        ),
        kept_apart(*old(doc), *final(doc), event@),
{
    let item = doc["hooks"].as_table_like_mut().unwrap().get_mut(event).unwrap();
    let mut array = toml_edit::Array::new();
    array.push(item.as_value().unwrap().clone());
    *item = toml_edit::value(array);
}

/// `Array::push_formatted` of `command` decorated with a space before it and `tail` after
/// it, on the array under `event`.
#[verifier::external_body]
pub(crate) fn push_marked_hook(doc: &mut DocumentMut, event: &str, command: &str, tail: &str)
    requires
        hooks_of(*old(doc)) is Table,
        entry(hooks_of(*old(doc))->Table_0, event@) matches Some(HookValue::List(_)),
    ensures
        *final(doc) == with_marked_hook(*old(doc), event@, command@, tail@),
        hooks_of(*final(doc)) == HooksView::Table(
            hooks_of(*old(doc))->Table_0.insert(
                event@,
                HookValue::List(hooks_of(*old(doc))->Table_0[event@]->List_0.push(Some(command@))),
            ),
        ),
        tail_of(*final(doc), event@, hooks_of(*old(doc))->Table_0[event@]->List_0.len() as int)
            == Some(tail@),
        forall|i: int|
            0 <= i < hooks_of(*old(doc))->Table_0[event@]->List_0.len() ==> #[trigger] tail_of(
                *final(doc),
                event@,
                i,
            ) == tail_of(*old(doc), event@, i),
        hook_decor(*final(doc), event@) == hook_decor(*old(doc), event@),
        kept_apart(*old(doc), *final(doc), event@),
{
    let hooks = doc["hooks"].as_table_like_mut().unwrap();
    let array = hooks.get_mut(event).unwrap().as_array_mut().unwrap();
    array.push_formatted(toml_edit::Value::from(command).decorated(" ", tail));
}

/// `Array::remove(0)` on the one-element array under `event`, its element put in the
/// array's place.
#[verifier::external_body]
pub(crate) fn unwrap_hook(doc: &mut DocumentMut, event: &str)
    requires
        hooks_of(*old(doc)) is Table,
        entry(hooks_of(*old(doc))->Table_0, event@) matches Some(HookValue::List(l)) && l.len()
            == 1 && l[0] is Some,
    ensures
        *final(doc) == with_unwrapped_hook(*old(doc), event@),
        hooks_of(*final(doc)) == HooksView::Table(
            hooks_of(*old(doc))->Table_0.insert(
                event@,
                HookValue::Text(hooks_of(*old(doc))->Table_0[event@]->List_0[0]->Some_0),
            ),
        ),
        kept_apart(*old(doc), *final(doc), event@),
{
    let item = doc["hooks"].as_table_like_mut().unwrap().get_mut(event).unwrap();
    let first = item.as_array_mut().unwrap().remove(0);
    *item = toml_edit::Item::Value(first);
}

/// `Value::decor_mut`: the decor of the value under `event` set to `decor`.
#[verifier::external_body]
pub(crate) fn set_hook_decor(doc: &mut DocumentMut, event: &str, decor: Decor)
    requires
        holds_value(*old(doc), event@),
    ensures
        *final(doc) == with_hook_decor(*old(doc), event@, decor),
        hooks_of(*final(doc)) == hooks_of(*old(doc)),
        hook_decor(*final(doc), event@) == decor,
        forall|i: int| #[trigger] tail_of(*final(doc), event@, i) == tail_of(*old(doc), event@, i),
        kept_apart(*old(doc), *final(doc), event@),
{
    let item = doc["hooks"].as_table_like_mut().unwrap().get_mut(event).unwrap();
    *item.as_value_mut().unwrap().decor_mut() = decor;
}

/// `Array::push(command)` on the array under `event`.
#[verifier::external_body]
pub(crate) fn push_hook(doc: &mut DocumentMut, event: &str, command: &str)
    requires
        hooks_of(*old(doc)) is Table,
        entry(hooks_of(*old(doc))->Table_0, event@) matches Some(HookValue::List(_)),
    ensures
        *final(doc) == with_pushed_hook(*old(doc), event@, command@),
        hooks_of(*final(doc)) == HooksView::Table(
            hooks_of(*old(doc))->Table_0.insert(
                event@,
                HookValue::List(hooks_of(*old(doc))->Table_0[event@]->List_0.push(Some(command@))),
            ),
        ),
        tail_of(*final(doc), event@, hooks_of(*old(doc))->Table_0[event@]->List_0.len() as int)
            == Some(""@),
        forall|i: int|
            0 <= i < hooks_of(*old(doc))->Table_0[event@]->List_0.len() ==> #[trigger] tail_of(
                *final(doc),
                event@,
                i,
            ) == tail_of(*old(doc), event@, i),
        hook_decor(*final(doc), event@) == hook_decor(*old(doc), event@),
        kept_apart(*old(doc), *final(doc), event@),
{
    let hooks = doc["hooks"].as_table_like_mut().unwrap();
    hooks.get_mut(event).unwrap().as_array_mut().unwrap().push(command);
}

/// `Array::retain` on the array under `event`, keeping the elements that are not
/// the string `command`.
#[verifier::external_body]
pub(crate) fn retain_hook(doc: &mut DocumentMut, event: &str, command: &str)
    requires
        hooks_of(*old(doc)) is Table,
        entry(hooks_of(*old(doc))->Table_0, event@) matches Some(HookValue::List(_)),
    ensures
        *final(doc) == with_retained_hook(*old(doc), event@, command@),
        hooks_of(*final(doc)) == HooksView::Table(
            hooks_of(*old(doc))->Table_0.insert(
                event@,
                HookValue::List(without(hooks_of(*old(doc))->Table_0[event@]->List_0, command@)),
            ),
        ),
        hook_decor(*final(doc), event@) == hook_decor(*old(doc), event@),
        kept_apart(*old(doc), *final(doc), event@),
{
    let hooks = doc["hooks"].as_table_like_mut().unwrap();
    let array = hooks.get_mut(event).unwrap().as_array_mut().unwrap();
    array.retain(|v| crate::text::keeps_element(v.as_str(), command));
}

/// `TableLike::remove(event)` on the hooks table.
#[verifier::external_body]
pub(crate) fn remove_hook(doc: &mut DocumentMut, event: &str)
    requires
        hooks_of(*old(doc)) is Table,
    ensures
        *final(doc) == without_hook(*old(doc), event@),
        hooks_of(*final(doc)) == HooksView::Table(hooks_of(*old(doc))->Table_0.remove(event@)),
        kept_apart(*old(doc), *final(doc), event@),
{
    doc["hooks"].as_table_like_mut().unwrap().remove(event);
}

/// `DocumentMut`'s `Display`: the text of the document.
#[verifier::external_body]
pub(crate) fn render_document(doc: &DocumentMut) -> (r: String)
    ensures
        r@ == rendered(*doc),
{
    doc.to_string()
}

} // verus!

//! Records as lists of named values, the form in which they are written:
//! a record on disk is an object whose members are these names and values.

use crate::error::{RuntimeError, RuntimeErrorView};
use crate::text::texts_view;
use vstd::prelude::*;

verus! {

/// A value of a written record.
#[derive(Debug)]
pub enum WireValue {
    /// The value that stands for nothing.
    Null,
    Text(String),
    /// A whole number that is not negative.
    Number(u64),
    /// A list whose items are all texts.
    TextList(Vec<String>),
    /// Any value of another kind.
    Other,
}

/// A `WireValue` with its texts as sequences of characters.
pub enum WireValueView {
    Null,
    Text(Seq<char>),
    Number(u64),
    TextList(Seq<Seq<char>>),
    Other,
}

impl View for WireValue {
    type V = WireValueView;

    open spec fn view(&self) -> WireValueView {
        match self {
            WireValue::Null => WireValueView::Null,
            WireValue::Text(text) => WireValueView::Text(text@),
            WireValue::Number(n) => WireValueView::Number(*n),
            WireValue::TextList(items) => WireValueView::TextList(texts_view(items@)),
            WireValue::Other => WireValueView::Other,
        }
    }
}

/// A member of a written record: a name and a value.
#[derive(Debug)]
pub struct WireField {
    pub name: String,
    pub value: WireValue,
}

impl View for WireField {
    type V = (Seq<char>, WireValueView);

    open spec fn view(&self) -> (Seq<char>, WireValueView) {
        (self.name@, self.value@)
    }
}

/// The members of a written record, by their views.
pub type Members = Seq<(Seq<char>, WireValueView)>;

/// The members of a list, each by its view.
pub open spec fn fields_view(fields: Seq<WireField>) -> Members {
    Seq::new(fields.len(), |k: int| fields[k]@)
}

/// The value of the first member called `name`, if there is one.
pub open spec fn lookup(members: Members, name: Seq<char>) -> Option<WireValueView>
    decreases members.len(),
{
    if members.len() == 0 {
        None
    } else if members[0].0 == name {
        Some(members[0].1)
    } else {
        lookup(members.drop_first(), name)
    }
}

/// The member at `k` is found under its name if no member before it has
/// that name.
pub proof fn lemma_lookup_finds(members: Members, k: int)
    requires
        0 <= k < members.len(),
        forall|j: int| 0 <= j < k ==> (#[trigger] members[j]).0 != members[k].0,
    ensures
        lookup(members, members[k].0) == Some(members[k].1),
    decreases k,
{
    if k > 0 {
        let rest = members.drop_first();
        assert(rest[k - 1] == members[k]);
        assert forall|j: int| 0 <= j < k - 1 implies (#[trigger] rest[j]).0 != rest[k - 1].0 by {
            assert(rest[j] == members[j + 1]);
        }
        lemma_lookup_finds(rest, k - 1);
    }
}

/// The text that a member must hold: none if the member is missing or
/// holds something else.
pub open spec fn text_in(found: Option<WireValueView>) -> Option<Seq<char>> {
    match found {
        Some(WireValueView::Text(text)) => Some(text),
        _ => None,
    }
}

/// The text that a member may hold: no text if the member is missing or
/// holds the null value; none at all if it holds something else.
pub open spec fn optional_text_in(found: Option<WireValueView>) -> Option<Option<Seq<char>>> {
    match found {
        None => Some(None),
        Some(WireValueView::Null) => Some(None),
        Some(WireValueView::Text(text)) => Some(Some(text)),
        _ => None,
    }
}

/// The list of texts that a member must hold.
pub open spec fn list_in(found: Option<WireValueView>) -> Option<Seq<Seq<char>>> {
    match found {
        Some(WireValueView::TextList(items)) => Some(items),
        _ => None,
    }
}

/// The number that a member must hold.
pub open spec fn number_in(found: Option<WireValueView>) -> Option<u64> {
    match found {
        Some(WireValueView::Number(n)) => Some(n),
        _ => None,
    }
}

/// The failure to read a record of the kind `what`.
pub open spec fn bad_record(what: Seq<char>) -> RuntimeErrorView {
    RuntimeErrorView::ParseFailed { what }
}

/// The value of the first member called `name`, if there is one.
pub fn find<'a>(fields: &'a Vec<WireField>, name: &str) -> (found: Option<&'a WireValue>)
    ensures
        match lookup(fields_view(fields@), name@) {
            Some(value) => found is Some && found->Some_0@ == value,
            None => found is None,
        },
{
    let ghost all = fields_view(fields@);
    let wanted = String::from_str(name);
    let mut k: usize = 0;
    assert(all.skip(0) =~= all);
    while k < fields.len()
        invariant
            k <= fields.len(),
            all == fields_view(fields@),
            wanted@ == name@,
            lookup(all, name@) == lookup(all.skip(k as int), name@),
        decreases fields.len() - k,
    {
        assert(all.skip(k as int)[0] == fields@[k as int]@);
        assert(all.skip(k as int).drop_first() =~= all.skip(k + 1));
        if fields[k].name == wanted {
            return Some(&fields[k].value);
        }
        k = k + 1;
    }
    None
}

/// A second list with the same texts.
pub fn copy_texts(texts: &Vec<String>) -> (copy: Vec<String>)
    ensures
        texts_view(copy@) == texts_view(texts@),
{
    let mut copy: Vec<String> = Vec::new();
    let mut k: usize = 0;
    while k < texts.len()
        invariant
            k <= texts.len(),
            copy.len() == k,
            forall|j: int| 0 <= j < k ==> copy@[j]@ == texts@[j]@,
        decreases texts.len() - k,
    {
        copy.push(texts[k].clone());
        k = k + 1;
    }
    assert(texts_view(copy@) =~= texts_view(texts@));
    copy
}

/// The text that the member `name` must hold.
pub fn text_field(fields: &Vec<WireField>, name: &str) -> (text: Option<String>)
    ensures
        crate::text::opt_text(text) == text_in(lookup(fields_view(fields@), name@)),
{
    match find(fields, name) {
        Some(WireValue::Text(text)) => Some(text.clone()),
        _ => None,
    }
}

/// The text that the member `name` may hold.
pub fn optional_text_field(fields: &Vec<WireField>, name: &str) -> (text: Option<Option<String>>)
    ensures
        match optional_text_in(lookup(fields_view(fields@), name@)) {
            Some(inner) => text is Some && crate::text::opt_text(text->Some_0) == inner,
            None => text is None,
        },
{
    match find(fields, name) {
        None => Some(None),
        Some(WireValue::Null) => Some(None),
        Some(WireValue::Text(text)) => Some(Some(text.clone())),
        _ => None,
    }
}

/// The list of texts that the member `name` must hold.
pub fn list_field(fields: &Vec<WireField>, name: &str) -> (items: Option<Vec<String>>)
    ensures
        match list_in(lookup(fields_view(fields@), name@)) {
            Some(list) => items is Some && texts_view(items->Some_0@) == list,
            None => items is None,
        },
{
    match find(fields, name) {
        Some(WireValue::TextList(items)) => Some(copy_texts(items)),
        _ => None,
    }
}

/// The number that the member `name` must hold.
pub fn number_field(fields: &Vec<WireField>, name: &str) -> (n: Option<u64>)
    ensures
        n == number_in(lookup(fields_view(fields@), name@)),
{
    match find(fields, name) {
        Some(WireValue::Number(n)) => Some(*n),
        _ => None,
    }
}

/// A member that holds a text.
pub fn text_member(name: &str, text: &String) -> (field: WireField)
    ensures
        field@ == (name@, WireValueView::Text(text@)),
{
    WireField { name: String::from_str(name), value: WireValue::Text(text.clone()) }
}

/// A member that holds a text, or the null value for no text.
pub fn optional_text_member(name: &str, text: &Option<String>) -> (field: WireField)
    ensures
        field@ == (
            name@,
            match text {
                Some(t) => WireValueView::Text(t@),
                None => WireValueView::Null,
            },
        ),
{
    WireField {
        name: String::from_str(name),
        value: match text {
            Some(t) => WireValue::Text(t.clone()),
            None => WireValue::Null,
        },
    }
}

/// The failure to read a record of the kind `what`.
pub fn record_error(what: &str) -> (e: RuntimeError)
    ensures
        e@ == bad_record(what@),
{
    RuntimeError::ParseFailed { what: String::from_str(what) }
}

} // verus!

//! The decisions behind the editing views: what an attribute field shows
//! and yields, what is selected, and what a press on the diagram hits.
use vstd::prelude::*;

use crate::model::{opt_string_view, strings_view, AttrKind, AttrValue};
use crate::text::str_eq;

verus! {

/// Options for the widget of an attribute field.
#[derive(Debug, Clone)]
pub struct AttrFieldOptions {
    pub id: Option<String>,
}

impl Default for AttrFieldOptions {
    fn default() -> (r: Self)
        ensures
            r.id is None,
    {
        AttrFieldOptions { id: None }
    }
}

impl AttrFieldOptions {
    /// Options with nothing set.
    pub fn new() -> (r: Self)
        ensures
            r.id is None,
    {
        Self::default()
    }

    /// The same options with the widget id set.
    pub fn id(self, id: String) -> (r: Self)
        ensures
            r.id == Some(id),
    {
        let mut this = self;
        this.id = Some(id);
        this
    }

    /// The id a check box is given: the one the options set, or
    /// `check-box` when there are no options or they set none.
    pub fn component_id(options: &Option<AttrFieldOptions>) -> (r: String)
        ensures
            r@ == match options {
                Some(AttrFieldOptions { id: Some(id) }) => id@,
                _ => "check-box"@,
            },
    {
        match options {
            Some(AttrFieldOptions { id: Some(id) }) => id.clone(),
            _ => "check-box".to_owned(),
        }
    }
}

/// What is selected in the editor.
#[derive(Debug, Clone, PartialEq)]
pub enum SelectedItem {
    Table(String),
    Relationship(String),
}

/// What an attribute field shows: a single-line or multi-line text, a
/// selection among options with the chosen one (none when nothing is
/// chosen), or a check mark.
#[derive(Debug, Clone)]
pub enum AttrFieldState {
    Text(String),
    MultilineText(String),
    Select { options: Vec<String>, selected: Option<String> },
    Bool(bool),
}

/// The text a value puts into a field: its text, or an empty text when it
/// has none or is not a text.
pub open spec fn text_of_value(v: AttrValue) -> Seq<char> {
    match v {
        AttrValue::Text(Some(s)) => s@,
        _ => Seq::empty(),
    }
}

/// The mark a value puts into a check box: its flag, or unchecked when it
/// is not a flag.
pub open spec fn bool_of_value(v: AttrValue) -> bool {
    match v {
        AttrValue::Bool(b) => b,
        _ => false,
    }
}

/// What a selection among `options` holds after `text` is chosen: `text`
/// when it is one of the options, no choice otherwise.
pub open spec fn choice_for(options: Seq<Seq<char>>, text: Seq<char>) -> Option<Seq<char>> {
    if options.contains(text) {
        Some(text)
    } else {
        None
    }
}

/// The text of an attribute value that is a text (none when it holds none).
pub open spec fn value_text(v: AttrValue) -> Option<Option<Seq<char>>> {
    match v {
        AttrValue::Text(t) => Some(opt_string_view(t)),
        AttrValue::Bool(_) => None,
    }
}

/// The text of a field state that is a text field.
pub open spec fn state_text(s: AttrFieldState) -> Option<Seq<char>> {
    match s {
        AttrFieldState::Text(t) => Some(t@),
        AttrFieldState::MultilineText(t) => Some(t@),
        _ => None,
    }
}

/// `r` is the value that field state `s` holds: its text for a text
/// field, the chosen option (if any) for a selection, the mark for a check
/// box.
pub open spec fn holds_value(s: AttrFieldState, r: AttrValue) -> bool {
    match s {
        AttrFieldState::Text(t) => value_text(r) == Some(Some(t@)),
        AttrFieldState::MultilineText(t) => value_text(r) == Some(Some(t@)),
        AttrFieldState::Select { selected, .. } => value_text(r) == Some(opt_string_view(selected)),
        AttrFieldState::Bool(b) => r == AttrValue::Bool(b),
    }
}

/// `after` is field state `before` with `value` put into it: a text field
/// takes the value's text (an empty text when it has none or is not a
/// text); a selection keeps its options and chooses that text when it is
/// one of them, and nothing otherwise; a check box takes the value's flag
/// (unchecked when it is not a flag).
pub open spec fn is_set_to(before: AttrFieldState, after: AttrFieldState, value: AttrValue) -> bool {
    match before {
        AttrFieldState::Text(_) => after is Text && state_text(after) == Some(text_of_value(value)),
        AttrFieldState::MultilineText(_) => after is MultilineText && state_text(after) == Some(
            text_of_value(value),
        ),
        AttrFieldState::Select { options, .. } => match after {
            AttrFieldState::Select { options: o, selected } => {
                &&& strings_view(o@) == strings_view(options@)
                &&& opt_string_view(selected) == choice_for(strings_view(options@), text_of_value(value))
            },
            _ => false,
        },
        AttrFieldState::Bool(_) => after == AttrFieldState::Bool(bool_of_value(value)),
    }
}

/// `after` is field state `before` emptied: what putting a value without
/// text into it gives (an empty text; for a selection, no choice unless the
/// empty text is one of its options; an unchecked box).
pub open spec fn is_cleared(before: AttrFieldState, after: AttrFieldState) -> bool {
    is_set_to(before, after, AttrValue::Text(None))
}

/// Whether `text` is one of `options`.
fn has_option(options: &Vec<String>, text: &String) -> (r: bool)
    ensures
        r == strings_view(options@).contains(text@),
{
    let n: usize = options.len();
    let mut i: usize = 0;
    while i < n
        invariant
            n == options@.len(),
            i <= n,
            forall|j: int| 0 <= j < i ==> options@[j]@ != text@,
        decreases n - i,
    {
        if str_eq(options[i].as_str(), text.as_str()) {
            assert(strings_view(options@)[i as int] == text@);
            return true;
        }
        i = i + 1;
    }
    assert forall|j: int| 0 <= j < strings_view(options@).len() implies strings_view(options@)[j]
        != text@ by {
        assert(strings_view(options@)[j] == options@[j]@);
    }
    false
}

/// Copies a list of strings.
fn copy_strings(v: &Vec<String>) -> (r: Vec<String>)
    ensures
        strings_view(r@) == strings_view(v@),
{
    let mut r: Vec<String> = Vec::new();
    let n: usize = v.len();
    let mut i: usize = 0;
    while i < n
        invariant
            n == v@.len(),
            i <= n,
            r@.len() == i,
            forall|j: int| 0 <= j < i ==> #[trigger] r@[j]@ == v@[j]@,
        decreases n - i,
    {
        r.push(v[i].clone());
        i = i + 1;
    }
    assert(strings_view(r@) =~= strings_view(v@));
    r
}

impl AttrFieldState {
    /// The field an attribute kind is edited with, as it starts: a text
    /// field (single or multiple lines) showing the default or nothing, a
    /// selection among the kind's options with nothing chosen, or an
    /// unchecked box.
    pub fn from_kind(kind: &AttrKind) -> (r: AttrFieldState)
        ensures
            match *kind {
                AttrKind::Text { default, multiple_line } => {
                    &&& (if multiple_line { r is MultilineText } else { r is Text })
                    &&& state_text(r) == Some(
                        match default {
                            Some(d) => d@,
                            None => Seq::<char>::empty(),
                        },
                    )
                },
                AttrKind::Select { options } => match r {
                    AttrFieldState::Select { options: o, selected } => strings_view(o@)
                        == strings_view(options@) && selected is None,
                    _ => false,
                },
                AttrKind::Bool => r == AttrFieldState::Bool(false),
            },
    {
        match kind {
            AttrKind::Text { default, multiple_line } => {
                let text = match default {
                    Some(d) => d.clone(),
                    None => String::new(),
                };
                if *multiple_line {
                    AttrFieldState::MultilineText(text)
                } else {
                    AttrFieldState::Text(text)
                }
            },
            AttrKind::Select { options } => AttrFieldState::Select {
                options: copy_strings(options),
                selected: None,
            },
            AttrKind::Bool => AttrFieldState::Bool(false),
        }
    }

    /// The value the field holds: its text for a text field, the chosen
    /// option (if any) for a selection, the mark for a check box.
    pub fn value(&self) -> (r: AttrValue)
        ensures
            holds_value(*self, r),
    {
        match self {
            AttrFieldState::Text(t) => AttrValue::Text(Some(t.clone())),
            AttrFieldState::MultilineText(t) => AttrValue::Text(Some(t.clone())),
            AttrFieldState::Select { selected, .. } => AttrValue::Text(
                match selected {
                    Some(s) => Some(s.clone()),
                    None => None,
                },
            ),
            AttrFieldState::Bool(b) => AttrValue::Bool(*b),
        }
    }

    /// Puts a value into the field: a text field takes the value's text (an
    /// empty text when it has none or is not a text); a selection chooses
    /// that text when it is one of its options, and nothing otherwise; a
    /// check box takes the value's flag (unchecked when it is not a flag).
    pub fn set_value(&mut self, value: AttrValue)
        ensures
            is_set_to(*old(self), *final(self), value),
    {
        let text = match &value {
            AttrValue::Text(Some(s)) => s.clone(),
            _ => String::new(),
        };
        let flag = match value {
            AttrValue::Bool(b) => b,
            _ => false,
        };
        match self {
            AttrFieldState::Text(t) => *t = text,
            AttrFieldState::MultilineText(t) => *t = text,
            AttrFieldState::Select { options, selected } => {
                if has_option(options, &text) {
                    *selected = Some(text);
                } else {
                    *selected = None;
                }
            },
            AttrFieldState::Bool(b) => *b = flag,
        }
    }

    /// Empties the field: an empty text, no choice (unless the empty text is
    /// one of the options), an unchecked box.
    pub fn clear_value(&mut self)
        ensures
            is_cleared(*old(self), *final(self)),
    {
        self.set_value(AttrValue::Text(None));
    }
}

/// A field reads back what was put into it: a text field the text of a
/// text value (an empty text for a value without one), a selection that
/// text when it is one of its options and no choice otherwise, a check box
/// the flag of a flag value.
pub proof fn law_field_reads_back_what_was_set(
    before: AttrFieldState,
    after: AttrFieldState,
    value: AttrValue,
    read: AttrValue,
)
    requires
        is_set_to(before, after, value),
        holds_value(after, read),
    ensures
        before is Bool ==> read == AttrValue::Bool(bool_of_value(value)),
        (before is Text || before is MultilineText) ==> value_text(read) == Some(
            Some(text_of_value(value)),
        ),
        (before is Text || before is MultilineText) && (value matches AttrValue::Text(Some(_)))
            ==> value_text(read) == value_text(value),
        match before {
            AttrFieldState::Select { options, .. } => value_text(read) == Some(
                choice_for(strings_view(options@), text_of_value(value)),
            ),
            _ => true,
        },
{
}

/// A cleared field reads back an empty text, no choice (for a selection
/// without an empty option), or an unchecked box; clearing it again reads
/// back the same.
pub proof fn law_cleared_field_reads_empty(
    before: AttrFieldState,
    after: AttrFieldState,
    again: AttrFieldState,
    read: AttrValue,
    read_again: AttrValue,
)
    requires
        is_cleared(before, after),
        is_cleared(after, again),
        holds_value(after, read),
        holds_value(again, read_again),
    ensures
        before is Bool ==> read == AttrValue::Bool(false),
        (before is Text || before is MultilineText) ==> value_text(read) == Some(
            Some(Seq::<char>::empty()),
        ),
        match before {
            AttrFieldState::Select { options, .. } => !strings_view(options@).contains(
                Seq::<char>::empty(),
            ) ==> value_text(read) == Some(None::<Seq<char>>),
            _ => true,
        },
        value_text(read_again) == value_text(read),
        before is Bool ==> read_again == read,
{
}

/// Which table a press on the diagram lands on, given for each table, in
/// list order, whether its rectangle holds the pressed point: the last such
/// table, since later tables are drawn on top; none when no rectangle holds
/// it (the press then pans the canvas).
pub fn topmost_hit(hits: &Vec<bool>) -> (r: Option<usize>)
    ensures
        match r {
            Some(i) => i < hits@.len() && hits@[i as int] && forall|j: int|
                i < j < hits@.len() ==> !#[trigger] hits@[j],
            None => forall|j: int| 0 <= j < hits@.len() ==> !#[trigger] hits@[j],
        },
{
    let mut i: usize = hits.len();
    while i > 0
        invariant
            i <= hits@.len(),
            forall|j: int| i <= j < hits@.len() ==> !#[trigger] hits@[j],
        decreases i,
    {
        if hits[i - 1] {
            return Some(i - 1);
        }
        i = i - 1;
    }
    None
}

} // verus!

//! The raw record of a notice, and the extraction of typed fields from it.

use vstd::prelude::*;

use crate::text::str_eq;

verus! {

/// What a field of a record holds.
#[derive(Debug, PartialEq, Eq)]
pub enum Value {
    /// A string.
    Text(String),
    /// A 64-bit integer.
    Integer(i64),
}

/// What a [`Value`] holds, with a string as its characters.
pub ghost enum ValueView {
    Text(Seq<char>),
    Integer(i64),
}

impl View for Value {
    type V = ValueView;

    open spec fn view(&self) -> ValueView {
        match *self {
            Value::Text(text) => ValueView::Text(text@),
            Value::Integer(number) => ValueView::Integer(number),
        }
    }
}

impl Clone for Value {
    fn clone(&self) -> (copy: Value)
        ensures
            copy@ == self@,
    {
        match self {
            Value::Text(text) => Value::Text(text.clone()),
            Value::Integer(number) => Value::Integer(*number),
        }
    }
}

/// A record as a mapping from field names to values.
pub type Fields = Map<Seq<char>, ValueView>;

/// The string that `fields` holds under `name`. A field that is absent, or
/// that holds an integer, has none.
pub open spec fn text_at(fields: Fields, name: Seq<char>) -> Option<Seq<char>> {
    match fields.get(name) {
        Some(ValueView::Text(text)) => Some(text),
        _ => None,
    }
}

/// The integer that `fields` holds under `name`. A field that is absent, or
/// that holds a string, has none.
pub open spec fn integer_at(fields: Fields, name: Seq<char>) -> Option<i64> {
    match fields.get(name) {
        Some(ValueView::Integer(number)) => Some(number),
        _ => None,
    }
}

/// One named value of a record.
#[derive(Debug)]
struct Entry {
    name: String,
    value: Value,
}

impl Entry {
    /// An entry of the same name and value.
    fn duplicate(&self) -> (copy: Entry)
        ensures
            copy.name@ == self.name@,
            copy.value@ == self.value@,
    {
        Entry { name: self.name.clone(), value: self.value.clone() }
    }
}

/// The mapping that a run of entries stands for: a later entry replaces an
/// earlier one of the same name.
spec fn fields_of(entries: Seq<Entry>) -> Fields
    decreases entries.len(),
{
    if entries.len() == 0 {
        Map::empty()
    } else {
        fields_of(entries.drop_last()).insert(entries.last().name@, entries.last().value@)
    }
}

/// Two runs of entries with the same names and values, entry by entry, stand
/// for the same mapping.
proof fn lemma_fields_of_same(a: Seq<Entry>, b: Seq<Entry>)
    requires
        a.len() == b.len(),
        forall|i: int| 0 <= i < a.len() ==> a[i].name@ == b[i].name@ && a[i].value@ == b[i].value@,
    ensures
        fields_of(a) == fields_of(b),
    decreases a.len(),
{
    if a.len() > 0 {
        lemma_fields_of_same(a.drop_last(), b.drop_last());
    }
}

/// A notice as it arrives: a flat record of named fields, each a string or
/// an integer.
#[derive(Debug)]
pub struct NoticeEvent {
    entries: Vec<Entry>,
}

impl Clone for NoticeEvent {
    fn clone(&self) -> (copy: NoticeEvent)
        ensures
            copy@ == self@,
    {
        let mut entries: Vec<Entry> = Vec::new();
        let mut i: usize = 0;
        while i < self.entries.len()
            invariant
                i <= self.entries.len(),
                entries@.len() == i,
                forall|j: int|
                    0 <= j < i ==> entries@[j].name@ == self.entries@[j].name@ && entries@[j].value@
                        == self.entries@[j].value@,
            decreases self.entries.len() - i,
        {
            entries.push(self.entries[i].duplicate());
            i += 1;
        }
        proof {
            lemma_fields_of_same(entries@, self.entries@);
        }
        NoticeEvent { entries }
    }
}

impl View for NoticeEvent {
    type V = Fields;

    closed spec fn view(&self) -> Fields {
        fields_of(self.entries@)
    }
}

impl NoticeEvent {
    /// The name of this kind of record, as errors give it.
    pub open spec fn kind_name() -> Seq<char> {
        "NoticeEvent"@
    }

    /// The name of this kind of record, as errors give it.
    pub fn struct_name() -> (name: &'static str)
        ensures
            name@ == Self::kind_name(),
    {
        "NoticeEvent"
    }

    /// A record without fields.
    pub fn new() -> (record: NoticeEvent)
        ensures
            record@ == Map::<Seq<char>, ValueView>::empty(),
    {
        NoticeEvent { entries: Vec::new() }
    }

    /// Sets the field `name` to `value`, whatever it held before.
    pub fn insert(&mut self, name: &str, value: Value)
        ensures
            final(self)@ == old(self)@.insert(name@, value@),
    {
        let entry = Entry { name: name.to_owned(), value };
        self.entries.push(entry);
        assert(self.entries@.drop_last() =~= old(self).entries@);
    }

    /// The value of the field `name`, if the record has that field.
    pub fn get(&self, name: &str) -> (found: Option<&Value>)
        ensures
            match found {
                Some(value) => self@.get(name@) == Some(value@),
                None => self@.get(name@) is None,
            },
    {
        let mut i = self.entries.len();
        assert(self.entries@.take(i as int) =~= self.entries@);
        while i > 0
            invariant
                i <= self.entries.len(),
                self@.get(name@) == fields_of(self.entries@.take(i as int)).get(name@),
            decreases i,
        {
            i -= 1;
            let entry = &self.entries[i];
            assert(self.entries@.take(i + 1).drop_last() =~= self.entries@.take(i as int));
            if str_eq(entry.name.as_str(), name) {
                return Some(&entry.value);
            }
        }
        None
    }

    /// The string in the field `name`. Absence is not an error: a field that
    /// is absent, or that holds an integer, gives `None`.
    pub fn get_string(&self, name: &str) -> (found: Option<&str>)
        ensures
            match found {
                Some(text) => text_at(self@, name@) == Some(text@),
                None => text_at(self@, name@) is None,
            },
    {
        match self.get(name) {
            Some(Value::Text(text)) => Some(text.as_str()),
            _ => None,
        }
    }

    /// The integer in the field `name`. Absence is not an error: a field that
    /// is absent, or that holds a string, gives `None`.
    pub fn get_int(&self, name: &str) -> (found: Option<i64>)
        ensures
            found == integer_at(self@, name@),
    {
        match self.get(name) {
            Some(Value::Integer(number)) => Some(*number),
            _ => None,
        }
    }
}

} // verus!

//! The text of a log event's fields: `name: value` entries joined by `, `.

use vstd::prelude::*;

verus! {

/// One field as text.
pub open spec fn field_entry(name: Seq<char>, value: Seq<char>) -> Seq<char> {
    name + ": "@ + value
}

/// The message after one more field is recorded.
pub open spec fn with_field(message: Seq<char>, name: Seq<char>, value: Seq<char>) -> Seq<char> {
    if message.len() == 0 {
        field_entry(name, value)
    } else {
        message + ", "@ + field_entry(name, value)
    }
}

/// The message after the fields are recorded in order, from an empty one.
pub open spec fn recorded(fields: Seq<(Seq<char>, Seq<char>)>) -> Seq<char>
    decreases fields.len(),
{
    if fields.len() == 0 {
        seq![]
    } else {
        with_field(recorded(fields.drop_last()), fields.last().0, fields.last().1)
    }
}

/// The entries of the fields joined by `, `.
pub open spec fn joined_fields(fields: Seq<(Seq<char>, Seq<char>)>) -> Seq<char>
    decreases fields.len(),
{
    if fields.len() == 0 {
        seq![]
    } else if fields.len() == 1 {
        field_entry(fields[0].0, fields[0].1)
    } else {
        joined_fields(fields.drop_last()) + ", "@ + field_entry(fields.last().0, fields.last().1)
    }
}

/// Collects the fields of one event.
pub struct StringVisitor(pub String);

impl StringVisitor {
    /// An empty message.
    pub fn new() -> (r: Self)
        ensures
            r.0@ == Seq::<char>::empty(),
    {
        StringVisitor(String::new())
    }

    /// Records one field whose value is already text (a `Debug` value is
    /// recorded through its `{:?}` rendering).
    pub fn record_str(&mut self, name: &str, value: &str)
        ensures
            final(self).0@ == with_field(old(self).0@, name@, value@),
    {
        if self.0.as_str().unicode_len() != 0 {
            self.0.append(", ");
        }
        self.0.append(name);
        self.0.append(": ");
        self.0.append(value);
        assert(self.0@ =~= with_field(old(self).0@, name@, value@));
    }
}

/// Recording fields one by one yields their entries joined by `, `: no
/// separator before the first, one between any two.
pub proof fn lemma_recorded_is_joined(fields: Seq<(Seq<char>, Seq<char>)>)
    ensures
        recorded(fields) == joined_fields(fields),
        fields.len() > 0 ==> recorded(fields).len() > 0,
    decreases fields.len(),
{
    reveal_strlit(": ");
    if fields.len() > 0 {
        lemma_recorded_is_joined(fields.drop_last());
        if fields.len() == 1 {
            assert(fields.drop_last().len() == 0);
            assert(fields.last() == fields[0]);
        }
    }
}

} // verus!

//! JSON documents as plain values.
use vstd::prelude::*;

use crate::text::same;

verus! {

/// A JSON value. Numbers that are no integers are kept apart without their digits; nothing
/// here reads them.
#[derive(Debug)]
pub enum Json {
    Null,
    Bool(bool),
    Integer(i128),
    Fraction,
    Text(String),
    List(Vec<Json>),
    Object(Vec<(String, Json)>),
}

/// A JSON value as a mathematical one.
pub ghost enum JsonView {
    Null,
    Bool(bool),
    Integer(int),
    Fraction,
    Text(Seq<char>),
    List(Seq<JsonView>),
    Object(Seq<(Seq<char>, JsonView)>),
}

impl Json {
    pub open spec fn plain(self) -> JsonView
        decreases self,
    {
        match self {
            Json::Null => JsonView::Null,
            Json::Bool(flag) => JsonView::Bool(flag),
            Json::Integer(n) => JsonView::Integer(n as int),
            Json::Fraction => JsonView::Fraction,
            Json::Text(text) => JsonView::Text(text@),
            Json::List(items) => JsonView::List(
                Seq::new(
                    items@.len(),
                    |i: int|
                        if 0 <= i < items@.len() {
                            items@[i].plain()
                        } else {
                            JsonView::Null
                        },
                ),
            ),
            Json::Object(fields) => JsonView::Object(
                Seq::new(
                    fields@.len(),
                    |i: int|
                        if 0 <= i < fields@.len() {
                            (fields@[i].0@, fields@[i].1.plain())
                        } else {
                            (Seq::empty(), JsonView::Null)
                        },
                ),
            ),
        }
    }
}

impl View for Json {
    type V = JsonView;

    open spec fn view(&self) -> JsonView {
        self.plain()
    }
}

/// The index of the first field with a name, or the number of fields where none has it.
pub open spec fn field_index(fields: Seq<(Seq<char>, JsonView)>, name: Seq<char>) -> int
    decreases fields.len(),
{
    if fields.len() == 0 {
        0
    } else if fields[0].0 == name {
        0
    } else {
        1 + field_index(fields.skip(1), name)
    }
}

impl JsonView {
    /// The value of a field of an object.
    pub open spec fn field(self, name: Seq<char>) -> Option<JsonView> {
        match self {
            JsonView::Object(fields) => {
                let i = field_index(fields, name);
                if i < fields.len() {
                    Some(fields[i].1)
                } else {
                    None
                }
            },
            _ => None,
        }
    }

    pub open spec fn text(self) -> Option<Seq<char>> {
        match self {
            JsonView::Text(text) => Some(text),
            _ => None,
        }
    }

    /// The integer that fits 64 bits with a sign.
    pub open spec fn integer(self) -> Option<i64> {
        match self {
            JsonView::Integer(n) => if i64::MIN <= n <= i64::MAX {
                Some(n as i64)
            } else {
                None
            },
            _ => None,
        }
    }
}

impl Json {
    /// Looks a field of an object up.
    pub fn get(&self, name: &str) -> (r: Option<&Json>)
        ensures
            match r {
                Some(value) => self@.field(name@) == Some(value@),
                None => self@.field(name@) is None,
            },
    {
        match self {
            Json::Object(fields) => {
                let ghost all = self@->Object_0;
                let mut i: usize = 0;
                assert(all.skip(0) == all);
                while i < fields.len()
                    invariant
                        *self == Json::Object(*fields),
                        self@ == JsonView::Object(all),
                        all.len() == fields@.len(),
                        i <= fields@.len(),
                        field_index(all, name@) == i + field_index(all.skip(i as int), name@),
                    decreases fields@.len() - i,
                {
                    let ghost rest = all.skip(i as int);
                    assert(rest[0] == all[i as int]);
                    assert(all[i as int] == (fields@[i as int].0@, fields@[i as int].1@));
                    if same(&fields[i].0, name) {
                        return Some(&fields[i].1);
                    }
                    assert(rest.skip(1) == all.skip(i + 1));
                    i += 1;
                }
                None
            },
            _ => None,
        }
    }

    pub fn as_text(&self) -> (r: Option<String>)
        ensures
            crate::text::opt_view(r) == self@.text(),
    {
        match self {
            Json::Text(text) => Some(text.clone()),
            _ => None,
        }
    }

    pub fn as_integer(&self) -> (r: Option<i64>)
        ensures
            r == self@.integer(),
    {
        match self {
            Json::Integer(n) => if -9223372036854775808 <= *n && *n <= 9223372036854775807 {
                Some(*n as i64)
            } else {
                None
            },
            _ => None,
        }
    }
}

/// A field is the first one of its name.
pub proof fn first_fields_count(fields: Seq<(Seq<char>, JsonView)>, name: Seq<char>, i: int)
    requires
        0 <= i < fields.len(),
        fields[i].0 == name,
        forall|j: int| 0 <= j < i ==> (#[trigger] fields[j]).0 != name,
    ensures
        field_index(fields, name) == i,
        JsonView::Object(fields).field(name) == Some(fields[i].1),
    decreases fields.len(),
{
    if i > 0 {
        let rest = fields.skip(1);
        assert(fields[0].0 != name);
        assert(rest[i - 1] == fields[i]);
        assert forall|j: int| 0 <= j < i - 1 implies (#[trigger] rest[j]).0 != name by {
            assert(rest[j] == fields[j + 1]);
        }
        first_fields_count(rest, name, i - 1);
    }
}

/// A field that is not there is none, and only an object has fields.
pub proof fn absent_fields_are_none(
    fields: Seq<(Seq<char>, JsonView)>,
    value: JsonView,
    name: Seq<char>,
)
    requires
        forall|j: int| 0 <= j < fields.len() ==> (#[trigger] fields[j]).0 != name,
    ensures
        field_index(fields, name) == fields.len(),
        JsonView::Object(fields).field(name) is None,
        !(value is Object) ==> value.field(name) is None,
    decreases fields.len(),
{
    if fields.len() > 0 {
        let rest = fields.skip(1);
        assert(fields[0].0 != name);
        assert forall|j: int| 0 <= j < rest.len() implies (#[trigger] rest[j]).0 != name by {
            assert(rest[j] == fields[j + 1]);
        }
        absent_fields_are_none(rest, value, name);
    }
}

/// A value is read as what it is, an integer only where it fits.
pub proof fn values_are_read_as_they_are(value: JsonView)
    ensures
        value.text() is Some <==> value is Text,
        value matches JsonView::Text(text) ==> value.text() == Some(text),
        value.integer() is Some <==> (value matches JsonView::Integer(n)
            && -0x8000_0000_0000_0000 <= n <= 0x7fff_ffff_ffff_ffff),
        value.integer() matches Some(n) ==> value == JsonView::Integer(n as int),
{
}

} // verus!

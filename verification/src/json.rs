//! JSON objects, field by field.

use vstd::prelude::*;

use crate::text::same_text;

verus! {

/// One field's value. What is inside nested values and numbers that are not
/// unsigned integers is not kept.
pub enum JsonField {
    Null,
    Bool(bool),
    /// A number, with its value where that is an unsigned 64-bit integer.
    Number(Option<u64>),
    Text(String),
    Array,
    Object,
}

/// The mathematical counterpart of [`JsonField`].
pub enum JsonFieldView {
    Null,
    Bool(bool),
    Number(Option<u64>),
    Text(Seq<char>),
    Array,
    Object,
}

impl View for JsonField {
    type V = JsonFieldView;

    open spec fn view(&self) -> JsonFieldView {
        match *self {
            JsonField::Null => JsonFieldView::Null,
            JsonField::Bool(b) => JsonFieldView::Bool(b),
            JsonField::Number(n) => JsonFieldView::Number(n),
            JsonField::Text(text) => JsonFieldView::Text(text@),
            JsonField::Array => JsonFieldView::Array,
            JsonField::Object => JsonFieldView::Object,
        }
    }
}

/// The object that a list of fields makes: where a name occurs more than once,
/// its last value counts.
pub open spec fn object_of(fields: Seq<(String, JsonField)>) -> Map<Seq<char>, JsonFieldView>
    decreases fields.len(),
{
    if fields.len() == 0 {
        Map::empty()
    } else {
        object_of(fields.drop_last()).insert(fields.last().0@, fields.last().1@)
    }
}

/// The object that a text holds, where it is a JSON object: what
/// `serde_json::from_str` reads, field by field.
pub uninterp spec fn json_object(text: Seq<char>) -> Option<Map<Seq<char>, JsonFieldView>>;

/// The compact text of an object, as the `Display` impl of `serde_json::Value`
/// writes it.
pub uninterp spec fn json_text(object: Map<Seq<char>, JsonFieldView>) -> Seq<char>;

/// A bound on the number of characters that a field's value is written with.
pub open spec fn value_room(field: JsonFieldView) -> nat {
    match field {
        JsonFieldView::Null => 4,
        JsonFieldView::Bool(_) => 5,
        JsonFieldView::Number(_) => 20,
        JsonFieldView::Text(text) => 6 * text.len() + 2,
        JsonFieldView::Array => 2,
        JsonFieldView::Object => 2,
    }
}

/// A bound on the number of characters that an object is written with: two for its
/// braces, and for each field its name and value, in which a character takes up to six,
/// with two quotes, a colon and a comma.
pub open spec fn object_room(fields: Seq<(String, JsonField)>) -> nat
    decreases fields.len(),
{
    if fields.len() == 0 {
        2
    } else {
        object_room(fields.drop_last()) + 6 * fields.last().0@.len() + 4 + value_room(
            fields.last().1@,
        )
    }
}

/// Reads `text` as a JSON object with `serde_json::from_str`, which decides
/// whether it is one and what its fields hold.
#[verifier::external_body]
pub(crate) fn parse_object(text: &str) -> (res: Option<Vec<(String, JsonField)>>)
    ensures
        res matches Some(fields) ==> json_object(text@) == Some(object_of(fields@)),
        res is None ==> json_object(text@) is None,
{
    let object: serde_json::Map<String, serde_json::Value> = serde_json::from_str(text).ok()?;
    let convert = |value: serde_json::Value| match value {
        serde_json::Value::Null => JsonField::Null,
        serde_json::Value::Bool(b) => JsonField::Bool(b),
        serde_json::Value::Number(n) => JsonField::Number(n.as_u64()),
        serde_json::Value::String(text) => JsonField::Text(text),
        serde_json::Value::Array(_) => JsonField::Array,
        serde_json::Value::Object(_) => JsonField::Object,
    };
    Some(object.into_iter().map(|(name, value)| (name, convert(value))).collect())
}

/// Writes an object with the `Display` impl of `serde_json::Value`: the compact
/// form, which starts with a brace and in which control characters are escaped, so
/// that it is a single line. `serde_json::from_str` reads the same fields from it
/// again, also with a line feed behind it. No character is written with more than six, as
/// in `\u001f`, and no unsigned integer with more than twenty. A number without a value has no text of
/// its own and is left out by the precondition; nested values are written empty.
#[verifier::external_body]
pub(crate) fn render_object(fields: Vec<(String, JsonField)>) -> (res: String)
    requires
        forall|i: int| 0 <= i < fields@.len() ==> (#[trigger] fields@[i]).1 != JsonField::Number(None),
    ensures
        res@ == json_text(object_of(fields@)),
        json_object(res@) == Some(object_of(fields@)),
        json_object(res@.push('\n')) == Some(object_of(fields@)),
        !res@.contains('\n'),
        res@.len() > 0 && res@[0] == '{',
        res@.len() <= object_room(fields@),
{
    let convert = |field: JsonField| match field {
        JsonField::Null => serde_json::Value::Null,
        JsonField::Bool(b) => serde_json::Value::Bool(b),
        JsonField::Number(n) => serde_json::Value::from(n),
        JsonField::Text(text) => serde_json::Value::String(text),
        JsonField::Array => serde_json::Value::Array(Vec::new()),
        JsonField::Object => serde_json::Value::Object(serde_json::Map::new()),
    };
    let object = fields.into_iter().map(|(name, field)| (name, convert(field))).collect();
    serde_json::Value::Object(object).to_string()
}

/// The value of the field `name`, where the object has one.
pub open spec fn field_named(object: Map<Seq<char>, JsonFieldView>, name: Seq<char>) -> Option<
    JsonFieldView,
> {
    if object.contains_key(name) {
        Some(object[name])
    } else {
        None
    }
}

/// Looks a field up by its name.
pub fn find_field<'a>(fields: &'a Vec<(String, JsonField)>, name: &str) -> (res: Option<
    &'a JsonField,
>)
    ensures
        match res {
            Some(field) => field_named(object_of(fields@), name@) == Some(field@),
            None => field_named(object_of(fields@), name@) is None,
        },
        match res {
            Some(field) => exists|i: int|
                {
                    &&& 0 <= i < fields@.len()
                    &&& (#[trigger] fields@[i]).0@ == name@
                    &&& *field == fields@[i].1
                    &&& forall|j: int|
                        i < j < fields@.len() ==> (#[trigger] fields@[j]).0@ != name@
                },
            None => forall|i: int|
                0 <= i < fields@.len() ==> (#[trigger] fields@[i]).0@ != name@,
        },
{
    let mut found: Option<&'a JsonField> = None;
    for i in 0..fields.len()
        invariant
            match found {
                Some(field) => field_named(object_of(fields@.take(i as int)), name@) == Some(field@),
                None => field_named(object_of(fields@.take(i as int)), name@) is None,
            },
            match found {
                Some(field) => exists|k: int|
                    {
                        &&& 0 <= k < i
                        &&& (#[trigger] fields@[k]).0@ == name@
                        &&& *field == fields@[k].1
                        &&& forall|j: int| k < j < i ==> (#[trigger] fields@[j]).0@ != name@
                    },
                None => forall|k: int| 0 <= k < i ==> (#[trigger] fields@[k]).0@ != name@,
            },
    {
        assert(fields@.take(i + 1).drop_last() == fields@.take(i as int));
        if same_text(fields[i].0.as_str(), name) {
            found = Some(&fields[i].1);
        }
    }
    assert(fields@.take(fields@.len() as int) == fields@);
    found
}

/// Law: a lookup gives the last field with the name, and none exactly where no field has
/// it.
pub proof fn law_find_field<'a>(
    fields: &'a Vec<(String, JsonField)>,
    name: &str,
    res: Option<&'a JsonField>,
    i: int,
)
    requires
        call_ensures(find_field, (fields, name), res),
        0 <= i < fields@.len(),
        forall|j: int| i < j < fields@.len() ==> (#[trigger] fields@[j]).0@ != name@,
    ensures
        fields@[i].0@ == name@ ==> res == Some(&fields@[i].1),
        i == 0 && fields@[i].0@ != name@ ==> res is None,
{
}

/// Law: the object that a list of fields makes has the last field's value under its name,
/// and under every other name what the fields before it give.
pub proof fn law_object_of(
    fields: Seq<(String, JsonField)>,
    name: String,
    field: JsonField,
    other: Seq<char>,
)
    requires
        other != name@,
    ensures
        object_of(Seq::<(String, JsonField)>::empty()) == Map::<Seq<char>, JsonFieldView>::empty(),
        object_of(fields.push((name, field)))[name@] == field@,
        object_of(fields.push((name, field))).contains_key(name@),
        object_of(fields.push((name, field))).contains_key(other) <==> object_of(
            fields,
        ).contains_key(other),
        object_of(fields).contains_key(other) ==> object_of(fields.push((name, field)))[other]
            == object_of(fields)[other],
{
    assert(fields.push((name, field)).drop_last() == fields);
}

/// Law: a text field is seen with its own text, a number with its own value, and every
/// kind of field as that kind.
pub proof fn law_field_view(field: JsonField)
    ensures
        field matches JsonField::Text(text) ==> field@ == JsonFieldView::Text(text@),
        field matches JsonField::Number(n) ==> field@ == JsonFieldView::Number(n),
        field matches JsonField::Bool(b) ==> field@ == JsonFieldView::Bool(b),
        field is Null ==> field@ is Null,
        field is Array ==> field@ is Array,
        field is Object ==> field@ is Object,
{
}

} // verus!

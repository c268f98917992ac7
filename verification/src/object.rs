//! Reading the fields of a JSON object.

use crate::failure::DecodeError;
use crate::json::{field, fields_view, json_view, keys, same_text, Fields};
use serde_json::Value;
use vstd::prelude::*;

verus! {

/// Whether a field for which `null` stands for nothing is there: the object
/// has the key, and its value is not `null`.
pub open spec fn present(fields: Fields, key: Seq<char>) -> bool {
    fields.contains_key(key) && !(fields[key] is Null)
}

/// The names that a list of field names holds.
pub open spec fn names(allowed: Seq<&str>) -> Set<Seq<char>> {
    Set::new(|key: Seq<char>| exists|i: int| 0 <= i < allowed.len() && #[trigger] allowed[i]@ == key)
}

/// Every name of a field that an envelope or an error object has.
pub open spec fn field_names() -> Seq<Seq<char>> {
    seq![
        "jsonrpc"@,
        "method"@,
        "params"@,
        "id"@,
        "result"@,
        "error"@,
        "code"@,
        "message"@,
        "data"@,
    ]
}

/// Whether no two entries of a list of names are the same.
pub open spec fn all_differ(list: Seq<Seq<char>>) -> bool {
    forall|i: int, j: int| 0 <= i < j < list.len() ==> list[i] != list[j]
}

/// Whether every field of an object has one of the given names.
pub open spec fn only(fields: Fields, allowed: Set<Seq<char>>) -> bool {
    fields.dom().subset_of(allowed)
}

/// The names of the fields of the envelopes and of the error object are nine
/// different strings.
pub proof fn lemma_field_names_differ()
    ensures
        all_differ(field_names()),
{
    reveal_strlit("jsonrpc");
    reveal_strlit("method");
    reveal_strlit("params");
    reveal_strlit("id");
    reveal_strlit("result");
    reveal_strlit("error");
    reveal_strlit("code");
    reveal_strlit("message");
    reveal_strlit("data");
    let list = field_names();
    assert(list[0].len() == 7 && list[0][0] == 'j');
    assert(list[1].len() == 6 && list[1][0] == 'm');
    assert(list[2].len() == 6 && list[2][0] == 'p');
    assert(list[3].len() == 2 && list[3][0] == 'i');
    assert(list[4].len() == 6 && list[4][0] == 'r');
    assert(list[5].len() == 5 && list[5][0] == 'e');
    assert(list[6].len() == 4 && list[6][0] == 'c');
    assert(list[7].len() == 7 && list[7][0] == 'm');
    assert(list[8].len() == 4 && list[8][0] == 'd');
    assert forall|i: int, j: int| 0 <= i < j < list.len() implies list[i] != list[j] by {
        assert(list[i].len() != list[j].len() || list[i][0] != list[j][0]);
    }
}

/// Tells whether a name is in a list of names.
fn listed(key: &str, allowed: &[&str]) -> (out: bool)
    ensures
        out == names(allowed@).contains(key@),
{
    let mut i: usize = 0;
    while i < allowed.len()
        invariant
            i <= allowed@.len(),
            forall|j: int| 0 <= j < i ==> allowed@[j]@ != key@,
        decreases allowed@.len() - i,
    {
        if same_text(allowed[i], key) {
            return true;
        }
        i += 1;
    }
    false
}

/// Tells whether every field of the map has one of the given names.
pub(crate) fn only_fields(map: &serde_json::Map<String, Value>, allowed: &[&str]) -> (out: bool)
    ensures
        out == only(fields_view(*map), names(allowed@)),
{
    let found = keys(map);
    let mut i: usize = 0;
    while i < found.len()
        invariant
            i <= found@.len(),
            forall|j: int| 0 <= j < i ==> names(allowed@).contains(#[trigger] found@[j]@),
            forall|j: int|
                0 <= j < found@.len() ==> fields_view(*map).contains_key(#[trigger] found@[j]@),
        decreases found@.len() - i,
    {
        if !listed(found[i], allowed) {
            assert(fields_view(*map).dom().contains(found@[i as int]@));
            return false;
        }
        i += 1;
    }
    assert forall|key: Seq<char>| fields_view(*map).dom().contains(key) implies names(
        allowed@,
    ).contains(key) by {
        let j = choose|j: int| 0 <= j < found@.len() && #[trigger] found@[j]@ == key;
        assert(names(allowed@).contains(found@[j]@));
    }
    true
}

/// The value of a field that must be there.
pub(crate) fn required<'a>(map: &'a serde_json::Map<String, Value>, key: &str) -> (out: Result<
    &'a Value,
    DecodeError,
>)
    ensures
        match out {
            Ok(value) => fields_view(*map).contains_key(key@) && json_view(*value) == fields_view(
                *map,
            )[key@],
            Err(error) => !fields_view(*map).contains_key(key@) && error
                == DecodeError::MissingField,
        },
{
    match field(map, key) {
        Some(value) => Ok(value),
        None => Err(DecodeError::MissingField),
    }
}

/// The value of a field that may be left out or be `null`.
pub(crate) fn optional<'a>(map: &'a serde_json::Map<String, Value>, key: &str) -> (out: Option<
    &'a Value,
>)
    ensures
        match out {
            Some(value) => present(fields_view(*map), key@) && json_view(*value) == fields_view(
                *map,
            )[key@],
            None => !present(fields_view(*map), key@),
        },
{
    match field(map, key) {
        Some(value) => if value.is_null() {
            None
        } else {
            Some(value)
        },
        None => None,
    }
}

} // verus!

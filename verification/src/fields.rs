//! The fields of a JSON object: how a list of fields, some of them unset, is
//! written as members, and how a field is looked up among the members of an
//! object, under its name or its alias.

use crate::json::{members_view, Json, JsonValue};
use vstd::prelude::*;

verus! {

/// The one member `key: value`.
pub open spec fn member(key: Seq<char>, value: JsonValue) -> Seq<(Seq<char>, JsonValue)> {
    seq![(key, value)]
}

/// The member `key: value` where there is a value, and no member where there
/// is none.
pub open spec fn optional_member(key: Seq<char>, value: Option<JsonValue>) -> Seq<
    (Seq<char>, JsonValue),
> {
    match value {
        Some(v) => seq![(key, v)],
        None => Seq::empty(),
    }
}

/// The members written for a list of fields, in order: each field that has a
/// value under its key, and nothing for a field that has none.
pub open spec fn written(fields: Seq<(Seq<char>, Option<JsonValue>)>) -> Seq<
    (Seq<char>, JsonValue),
>
    decreases fields.len(),
{
    if fields.len() == 0 {
        Seq::empty()
    } else {
        written(fields.drop_last()) + optional_member(fields.last().0, fields.last().1)
    }
}

/// Whether no two fields of a list share a key.
pub open spec fn distinct_keys(fields: Seq<(Seq<char>, Option<JsonValue>)>) -> bool {
    forall|i: int, j: int|
        0 <= i < j < fields.len() ==> (#[trigger] fields[i]).0 != (#[trigger] fields[j]).0
}

/// Adds the member `key: value` after the members already there.
pub fn push_member(members: &mut Vec<(String, Json)>, key: &str, value: Json)
    ensures
        members_view(final(members)@) == members_view(old(members)@) + member(key@, value@),
{
    members.push((key.to_owned(), value));
    assert(members_view(members@) =~= members_view(old(members)@) + member(key@, value@));
}

/// The value of a document, where there is one.
pub open spec fn optional_view(doc: Option<Json>) -> Option<JsonValue> {
    match doc {
        Some(d) => Some(d@),
        None => None,
    }
}

/// Adds the member `key: value` after the members already there, where there
/// is a value.
pub fn push_optional_member(members: &mut Vec<(String, Json)>, key: &str, value: Option<Json>)
    ensures
        members_view(final(members)@) == members_view(old(members)@) + optional_member(
            key@,
            optional_view(value),
        ),
{
    match value {
        Some(doc) => {
            push_member(members, key, doc);
        },
        None => {
            assert(members_view(members@) =~= members_view(members@) + optional_member(
                key@,
                optional_view(value),
            ));
        },
    }
}

/// Whether a member's key is one of the two names under which a field may be
/// written.
pub open spec fn names_field(key: Seq<char>, name: Seq<char>, alias: Seq<char>) -> bool {
    key == name || key == alias
}

/// Whether the member at `i` is the only one written under either name.
pub open spec fn sole_field_at(
    members: Seq<(Seq<char>, JsonValue)>,
    name: Seq<char>,
    alias: Seq<char>,
    i: int,
) -> bool {
    &&& 0 <= i < members.len()
    &&& names_field(members[i].0, name, alias)
    &&& forall|j: int|
        0 <= j < members.len() && j != i ==> !names_field(
            (#[trigger] members[j]).0,
            name,
            alias,
        )
}

/// The value of the field written as `name` or as `alias`: present when
/// exactly one member carries either name, absent when none does and when
/// more than one does.
pub open spec fn field(
    members: Seq<(Seq<char>, JsonValue)>,
    name: Seq<char>,
    alias: Seq<char>,
) -> Option<JsonValue> {
    if exists|i: int| sole_field_at(members, name, alias, i) {
        Some(members[choose|i: int| sole_field_at(members, name, alias, i)].1)
    } else {
        None
    }
}

/// A field that is the only one of its names at `i` has the value found there.
pub proof fn lemma_field_at(
    members: Seq<(Seq<char>, JsonValue)>,
    name: Seq<char>,
    alias: Seq<char>,
    i: int,
)
    requires
        sole_field_at(members, name, alias, i),
    ensures
        field(members, name, alias) == Some(members[i].1),
{
    let k = choose|k: int| sole_field_at(members, name, alias, k);
    assert(sole_field_at(members, name, alias, k));
    if k != i {
        assert(!names_field(members[i].0, name, alias));
    }
}

/// Looks a field up among the members of an object, under its name and its
/// alias.
pub fn find_field<'a>(members: &'a Vec<(String, Json)>, name: &str, alias: &str) -> (found: Option<
    &'a Json,
>)
    ensures
        match found {
            Some(value) => field(members_view(members@), name@, alias@) == Some(value@),
            None => field(members_view(members@), name@, alias@) is None,
        },
{
    let wanted = name.to_owned();
    let other = alias.to_owned();
    let ghost view = members_view(members@);
    let mut first: Option<usize> = None;
    let mut repeated = false;
    let mut i: usize = 0;
    while i < members.len()
        invariant
            0 <= i <= members.len(),
            wanted@ == name@,
            other@ == alias@,
            view == members_view(members@),
            first is None ==> !repeated && forall|j: int|
                0 <= j < i ==> !names_field((#[trigger] view[j]).0, name@, alias@),
            first matches Some(k) ==> {
                &&& k < i
                &&& names_field(view[k as int].0, name@, alias@)
                &&& !repeated ==> forall|j: int|
                    0 <= j < i && j != k ==> !names_field((#[trigger] view[j]).0, name@, alias@)
                &&& repeated ==> exists|j: int|
                    0 <= j < i && j != k && names_field((#[trigger] view[j]).0, name@, alias@)
            },
        decreases members.len() - i,
    {
        let key = &members[i].0;
        assert(view[i as int].0 == key@);
        if *key == wanted || *key == other {
            match first {
                None => {
                    first = Some(i);
                },
                Some(_) => {
                    repeated = true;
                },
            }
        }
        i += 1;
    }
    match first {
        Some(k) => {
            if repeated {
                proof {
                    let j = choose|j: int|
                        0 <= j < i && j != k && names_field((#[trigger] view[j]).0, name@, alias@);
                    assert forall|n: int| !sole_field_at(view, name@, alias@, n) by {
                        if sole_field_at(view, name@, alias@, n) {
                            if n == k {
                                assert(!names_field(view[j].0, name@, alias@));
                            } else {
                                assert(!names_field(view[k as int].0, name@, alias@));
                            }
                        }
                    }
                }
                None
            } else {
                proof {
                    assert(sole_field_at(view, name@, alias@, k as int));
                    lemma_field_at(view, name@, alias@, k as int);
                }
                Some(&members[k].1)
            }
        },
        None => {
            proof {
                assert forall|n: int| !sole_field_at(view, name@, alias@, n) by {
                    if sole_field_at(view, name@, alias@, n) {
                        assert(!names_field(view[n].0, name@, alias@));
                    }
                }
            }
            None
        },
    }
}

/// Whether some member is written under `key`.
pub open spec fn has_member(members: Seq<(Seq<char>, JsonValue)>, key: Seq<char>) -> bool {
    exists|i: int| 0 <= i < members.len() && (#[trigger] members[i]).0 == key
}

/// A key occurs in two lists of members joined exactly when it occurs in one
/// of them.
pub proof fn lemma_has_member_of_joined(
    a: Seq<(Seq<char>, JsonValue)>,
    b: Seq<(Seq<char>, JsonValue)>,
    key: Seq<char>,
)
    ensures
        has_member(a + b, key) <==> has_member(a, key) || has_member(b, key),
{
    if has_member(a + b, key) {
        let i = choose|i: int| 0 <= i < (a + b).len() && (#[trigger] (a + b)[i]).0 == key;
        if i < a.len() {
            assert(a[i].0 == key);
        } else {
            assert(b[i - a.len()].0 == key);
        }
    }
    if has_member(a, key) {
        let i = choose|i: int| 0 <= i < a.len() && (#[trigger] a[i]).0 == key;
        assert((a + b)[i].0 == key);
    }
    if has_member(b, key) {
        let i = choose|i: int| 0 <= i < b.len() && (#[trigger] b[i]).0 == key;
        assert((a + b)[a.len() + i].0 == key);
    }
}

/// The one member `key: value` is written under `key` and under no other key,
/// and where there is no value there is no member.
pub proof fn lemma_has_member_of_one(key: Seq<char>, value: Option<JsonValue>, other: Seq<char>)
    ensures
        has_member(optional_member(key, value), other) <==> value is Some && key == other,
        value matches Some(v) ==> (has_member(member(key, v), other) <==> key == other),
{
    match value {
        Some(v) => {
            assert(optional_member(key, value) =~= member(key, v));
            assert(member(key, v)[0].0 == key);
        },
        None => {},
    }
}

/// Members joined on the right that carry neither name of a field leave the
/// field as it was.
pub proof fn lemma_field_skips_right(
    a: Seq<(Seq<char>, JsonValue)>,
    b: Seq<(Seq<char>, JsonValue)>,
    name: Seq<char>,
    alias: Seq<char>,
)
    requires
        !has_member(b, name),
        !has_member(b, alias),
    ensures
        field(a + b, name, alias) == field(a, name, alias),
{
    let ab = a + b;
    assert forall|j: int| a.len() <= j < ab.len() implies !names_field(
        (#[trigger] ab[j]).0,
        name,
        alias,
    ) by {
        assert(ab[j] == b[j - a.len()]);
    }
    assert forall|j: int| 0 <= j < a.len() implies (#[trigger] ab[j]) == a[j] by {}
    assert forall|i: int| sole_field_at(ab, name, alias, i) <==> sole_field_at(
        a,
        name,
        alias,
        i,
    ) by {
        if sole_field_at(ab, name, alias, i) {
            assert(i < a.len());
            assert forall|j: int| 0 <= j < a.len() && j != i implies !names_field(
                (#[trigger] a[j]).0,
                name,
                alias,
            ) by {
                assert(ab[j] == a[j]);
            }
        }
        if sole_field_at(a, name, alias, i) {
            assert(ab[i] == a[i]);
            assert forall|j: int| 0 <= j < ab.len() && j != i implies !names_field(
                (#[trigger] ab[j]).0,
                name,
                alias,
            ) by {
                if j < a.len() {
                    assert(ab[j] == a[j]);
                }
            }
        }
    }
    if exists|i: int| sole_field_at(a, name, alias, i) {
        let i = choose|i: int| sole_field_at(a, name, alias, i);
        assert(sole_field_at(ab, name, alias, i));
        lemma_field_at(a, name, alias, i);
        lemma_field_at(ab, name, alias, i);
    }
}

/// Members joined on the left that carry neither name of a field leave the
/// field as it is on the right.
pub proof fn lemma_field_skips_left(
    a: Seq<(Seq<char>, JsonValue)>,
    b: Seq<(Seq<char>, JsonValue)>,
    name: Seq<char>,
    alias: Seq<char>,
)
    requires
        !has_member(a, name),
        !has_member(a, alias),
    ensures
        field(a + b, name, alias) == field(b, name, alias),
{
    let ab = a + b;
    assert forall|j: int| 0 <= j < a.len() implies !names_field(
        (#[trigger] ab[j]).0,
        name,
        alias,
    ) by {
        assert(ab[j] == a[j]);
    }
    assert forall|i: int| sole_field_at(ab, name, alias, i) <==> sole_field_at(
        b,
        name,
        alias,
        i - a.len(),
    ) by {
        if sole_field_at(ab, name, alias, i) {
            assert(i >= a.len());
            assert(ab[i] == b[i - a.len()]);
            assert forall|j: int| 0 <= j < b.len() && j != i - a.len() implies !names_field(
                (#[trigger] b[j]).0,
                name,
                alias,
            ) by {
                assert(ab[j + a.len()] == b[j]);
            }
        }
        if sole_field_at(b, name, alias, i - a.len()) {
            assert(ab[i] == b[i - a.len()]);
            assert forall|j: int| 0 <= j < ab.len() && j != i implies !names_field(
                (#[trigger] ab[j]).0,
                name,
                alias,
            ) by {
                if j >= a.len() {
                    assert(ab[j] == b[j - a.len()]);
                }
            }
        }
    }
    if exists|i: int| sole_field_at(b, name, alias, i) {
        let i = choose|i: int| sole_field_at(b, name, alias, i);
        assert(sole_field_at(ab, name, alias, i + a.len()));
        lemma_field_at(b, name, alias, i);
        lemma_field_at(ab, name, alias, i + a.len());
        assert(ab[i + a.len()] == b[i]);
    } else {
        assert forall|i: int| !sole_field_at(ab, name, alias, i) by {
            assert(!sole_field_at(b, name, alias, i - a.len()));
        }
    }
}

/// A lone member written under one of a field's names is the field, and
/// where there is no member there is no field.
pub proof fn lemma_field_of_one(
    key: Seq<char>,
    value: Option<JsonValue>,
    name: Seq<char>,
    alias: Seq<char>,
)
    requires
        names_field(key, name, alias),
    ensures
        field(optional_member(key, value), name, alias) == value,
        value matches Some(v) ==> field(member(key, v), name, alias) == value,
{
    match value {
        Some(v) => {
            assert(optional_member(key, value) =~= member(key, v));
            assert(sole_field_at(member(key, v), name, alias, 0));
            lemma_field_at(member(key, v), name, alias, 0);
        },
        None => {},
    }
}

/// Two lists of members that agree, place by place, on the values and on
/// which members carry a name of the field, hold the same field.
pub proof fn lemma_field_by_either_name(
    a: Seq<(Seq<char>, JsonValue)>,
    b: Seq<(Seq<char>, JsonValue)>,
    name: Seq<char>,
    alias: Seq<char>,
)
    requires
        a.len() == b.len(),
        forall|i: int|
            0 <= i < a.len() ==> (#[trigger] a[i]).1 == b[i].1 && names_field(
                a[i].0,
                name,
                alias,
            ) == names_field(b[i].0, name, alias),
    ensures
        field(a, name, alias) == field(b, name, alias),
{
    assert forall|i: int| sole_field_at(a, name, alias, i) <==> sole_field_at(
        b,
        name,
        alias,
        i,
    ) by {
        if sole_field_at(a, name, alias, i) {
            assert(a[i].1 == b[i].1);
            assert forall|j: int| 0 <= j < b.len() && j != i implies !names_field(
                (#[trigger] b[j]).0,
                name,
                alias,
            ) by {
                assert(a[j].1 == b[j].1);
            }
        }
        if sole_field_at(b, name, alias, i) {
            assert(a[i].1 == b[i].1);
            assert forall|j: int| 0 <= j < a.len() && j != i implies !names_field(
                (#[trigger] a[j]).0,
                name,
                alias,
            ) by {
                assert(a[j].1 == b[j].1);
            }
        }
    }
    if exists|i: int| sole_field_at(a, name, alias, i) {
        let i = choose|i: int| sole_field_at(a, name, alias, i);
        assert(sole_field_at(b, name, alias, i));
        lemma_field_at(a, name, alias, i);
        lemma_field_at(b, name, alias, i);
        assert(a[i].1 == b[i].1);
    }
}

/// What is written for a list with one more field is what is written for
/// the list, and then the field.
pub proof fn lemma_written_push(
    fields: Seq<(Seq<char>, Option<JsonValue>)>,
    key: Seq<char>,
    value: Option<JsonValue>,
)
    ensures
        written(fields.push((key, value))) == written(fields) + optional_member(key, value),
        written(Seq::empty()) == Seq::<(Seq<char>, JsonValue)>::empty(),
{
    assert(fields.push((key, value)).drop_last() =~= fields);
}

/// A key is written exactly when a field of that key has a value.
pub proof fn lemma_written_has_member(
    fields: Seq<(Seq<char>, Option<JsonValue>)>,
    key: Seq<char>,
)
    ensures
        has_member(written(fields), key) <==> exists|i: int|
            0 <= i < fields.len() && (#[trigger] fields[i]).0 == key && fields[i].1 is Some,
    decreases fields.len(),
{
    if fields.len() > 0 {
        let rest = fields.drop_last();
        let last = fields.last();
        lemma_written_has_member(rest, key);
        lemma_has_member_of_joined(written(rest), optional_member(last.0, last.1), key);
        lemma_has_member_of_one(last.0, last.1, key);
        if exists|i: int| 0 <= i < rest.len() && (#[trigger] rest[i]).0 == key && rest[i].1 is Some {
            let i = choose|i: int|
                0 <= i < rest.len() && (#[trigger] rest[i]).0 == key && rest[i].1 is Some;
            assert(fields[i].0 == key && fields[i].1 is Some);
        }
        if last.1 is Some && last.0 == key {
            assert(fields[fields.len() - 1].0 == key);
        }
        if exists|i: int|
            0 <= i < fields.len() && (#[trigger] fields[i]).0 == key && fields[i].1 is Some {
            let i = choose|i: int|
                0 <= i < fields.len() && (#[trigger] fields[i]).0 == key && fields[i].1 is Some;
            if i < rest.len() {
                assert(rest[i].0 == key && rest[i].1 is Some);
            }
        }
    }
}

/// Among fields of distinct keys, a field is written exactly when it has a
/// value, and then once and with that value: looked up under its key, and
/// under an alias that is no other field's key, it is found as it was given.
pub proof fn lemma_written_field(
    fields: Seq<(Seq<char>, Option<JsonValue>)>,
    i: int,
    alias: Seq<char>,
)
    requires
        distinct_keys(fields),
        0 <= i < fields.len(),
        forall|j: int| 0 <= j < fields.len() && j != i ==> (#[trigger] fields[j]).0 != alias,
    ensures
        field(written(fields), fields[i].0, alias) == fields[i].1,
        has_member(written(fields), fields[i].0) <==> fields[i].1 is Some,
    decreases fields.len(),
{
    let key = fields[i].0;
    let rest = fields.drop_last();
    let last = fields.last();
    let tail = optional_member(last.0, last.1);
    lemma_written_has_member(fields, key);
    if fields[i].1 is Some {
        assert(fields[i].0 == key && fields[i].1 is Some);
    }
    if i == fields.len() - 1 {
        lemma_written_has_member(rest, key);
        lemma_written_has_member(rest, alias);
        assert forall|j: int| 0 <= j < rest.len() implies (#[trigger] rest[j]).0 != key
            && rest[j].0 != alias by {
            assert(rest[j] == fields[j]);
        }
        lemma_field_skips_left(written(rest), tail, key, alias);
        lemma_field_of_one(last.0, last.1, key, alias);
    } else {
        assert(fields[i].0 != last.0);
        assert(last == fields[fields.len() - 1]);
        lemma_has_member_of_one(last.0, last.1, key);
        lemma_has_member_of_one(last.0, last.1, alias);
        lemma_field_skips_right(written(rest), tail, key, alias);
        assert(rest[i] == fields[i]);
        assert(distinct_keys(rest)) by {
            assert forall|a: int, b: int| 0 <= a < b < rest.len() implies (#[trigger] rest[a]).0 != (
            #[trigger] rest[b]).0 by {
                assert(rest[a] == fields[a] && rest[b] == fields[b]);
            }
        }
        assert forall|j: int| 0 <= j < rest.len() && j != i implies (#[trigger] rest[j]).0
            != alias by {
            assert(rest[j] == fields[j]);
        }
        lemma_written_field(rest, i, alias);
    }
}

} // verus!

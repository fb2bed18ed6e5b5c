//! Response header fields, held in the header map of the `http` crate.

use axum::http::HeaderMap;
use axum::http::HeaderValue;
use vstd::prelude::*;
use vstd::string::StringSliceAdditionalSpecFns;
use vstd::utf8::encode_utf8;

verus! {

#[verifier::external_type_specification]
#[verifier::external_body]
pub struct ExHeaderValue(HeaderValue);

#[verifier::external_type_specification]
#[verifier::external_body]
#[verifier::reject_recursive_types(T)]
pub struct ExHeaderMap<T>(HeaderMap<T>);

/// Header fields: for each field name, in lower case, the bytes of its values.
pub type Fields = Map<Seq<char>, Seq<Seq<u8>>>;

/// The fields that a header map holds: for each field name, in lower case,
/// the bytes of its values in the order in which the map yields them.
pub uninterp spec fn header_fields(headers: HeaderMap) -> Fields;

/// The number of distinct field names that a header map holds.
pub uninterp spec fn header_names_held(headers: HeaderMap) -> nat;

/// The number of distinct names below which a header map always takes one
/// more: its table has at most 32768 slots and is never asked to grow
/// beyond them while the names fill less than a fifth of it.
pub const HEADER_NAMES_LIMIT: usize = 6554;

/// Whether `c` may stand in a field name as this library writes them: a
/// lower-case letter, a digit or a hyphen.
pub open spec fn is_name_char(c: char) -> bool {
    ('a' <= c && c <= 'z') || ('0' <= c && c <= '9') || c == '-'
}

/// Whether `name` is a field name as this library writes them.
pub open spec fn is_field_name(name: Seq<char>) -> bool {
    &&& 1 <= name.len() <= 64
    &&& forall|i: int| 0 <= i < name.len() ==> is_name_char(#[trigger] name[i])
}

/// Whether `c` may stand in the text of a field value: a tab, or any
/// character from the space upwards but U+007F.
pub open spec fn is_value_char(c: char) -> bool {
    c == '\t' || (c as u32 >= 32 && c as u32 != 127)
}

/// Whether `text` can be sent as a field value.
pub open spec fn is_field_text(text: Seq<char>) -> bool {
    forall|i: int| 0 <= i < text.len() ==> is_value_char(#[trigger] text[i])
}

/// `HeaderMap::new`: the new map holds no field.
#[verifier::external_body]
pub(crate) fn new_header_map() -> (headers: HeaderMap)
    ensures
        header_fields(headers) == Fields::empty(),
        header_names_held(headers) == 0,
{
    HeaderMap::new()
}

/// `HeaderMap::keys_len`: the number of distinct field names held.
#[verifier::external_body]
pub(crate) fn header_names_len(headers: &HeaderMap) -> (n: usize)
    ensures
        n == header_names_held(*headers),
{
    headers.keys_len()
}

/// `HeaderMap::insert`, with a value made by `HeaderValue::from_str`.
///
/// `from_str` accepts a text exactly if each of its bytes is a tab, or at
/// least 32 and not 127, which every byte of a character above U+007F is; it
/// keeps the bytes of the text. `insert` takes a name of lower-case letters,
/// digits and hyphens, at most 64 long, as it is written, removes every
/// value held under it and puts the new value in their place. It panics
/// only where the table of the map would have to grow beyond 32768 slots.
/// The table grows when the names fill three quarters of it, or after many
/// collisions when they fill a fifth of it, so that with fewer than
/// `HEADER_NAMES_LIMIT` names it never has to.
#[verifier::external_body]
pub(crate) fn set_header(headers: &mut HeaderMap, name: &'static str, value: &str)
    requires
        is_field_name(name@),
        is_field_text(value@),
        header_names_held(*old(headers)) < HEADER_NAMES_LIMIT,
    ensures
        header_fields(*final(headers)) == header_fields(*old(headers)).insert(
            name@,
            seq![value.spec_bytes()],
        ),
        header_names_held(*final(headers)) == if header_fields(*old(headers)).contains_key(name@) {
            header_names_held(*old(headers))
        } else {
            header_names_held(*old(headers)) + 1
        },
{
    if let Ok(field) = HeaderValue::from_str(value) {
        headers.insert(name, field);
    }
}

/// The views of a list of fields, each a name and the text of its value.
pub open spec fn field_views(fields: Seq<(&'static str, String)>) -> Seq<(Seq<char>, Seq<char>)> {
    Seq::new(fields.len(), |i: int| (fields[i].0@, fields[i].1@))
}

/// Whether every field of `fields` has a name as this library writes them
/// and a text that can be sent.
pub open spec fn fields_sendable(fields: Seq<(Seq<char>, Seq<char>)>) -> bool {
    forall|i: int|
        0 <= i < fields.len() ==> is_field_name((#[trigger] fields[i]).0) && is_field_text(
            fields[i].1,
        )
}

/// `base` after each field of `fields` was set in turn: a field replaces
/// every value held under its name by the bytes of its text.
pub open spec fn with_fields(base: Fields, fields: Seq<(Seq<char>, Seq<char>)>) -> Fields
    decreases fields.len(),
{
    if fields.len() == 0 {
        base
    } else {
        with_fields(base, fields.drop_last()).insert(
            fields.last().0,
            seq![encode_utf8(fields.last().1)],
        )
    }
}

/// The number of names that setting each field of `fields` in turn adds to
/// those of `base`.
pub open spec fn names_added(base: Fields, fields: Seq<(Seq<char>, Seq<char>)>) -> nat
    decreases fields.len(),
{
    if fields.len() == 0 {
        0
    } else if with_fields(base, fields.drop_last()).contains_key(fields.last().0) {
        names_added(base, fields.drop_last())
    } else {
        names_added(base, fields.drop_last()) + 1
    }
}

/// Whether a header map that holds `held` names, its fields being `base`,
/// can take each field of `fields` in turn: it holds fewer than
/// `HEADER_NAMES_LIMIT` names whenever one of them is set.
pub open spec fn has_room(held: nat, base: Fields, fields: Seq<(Seq<char>, Seq<char>)>) -> bool {
    fields.len() > 0 ==> held + names_added(base, fields.drop_last()) < HEADER_NAMES_LIMIT
}

/// Tells whether `text` can be sent as a field value.
pub fn is_sendable_text(text: &str) -> (ok: bool)
    ensures
        ok == is_field_text(text@),
{
    let mut ok = true;
    let it = text.chars();
    for c in iter: it
        invariant
            iter.seq() == text@,
            ok == is_field_text(text@.take(iter.index())),
    {
        proof {
            let i = iter.index();
            assert(text@.take(i + 1).take(i) =~= text@.take(i));
            assert(text@.take(i + 1)[i] == c);
            if is_value_char(c) && is_field_text(text@.take(i)) {
                assert forall|j: int| 0 <= j < i + 1 implies is_value_char(
                    #[trigger] text@.take(i + 1)[j],
                ) by {
                    if j < i {
                        assert(text@.take(i)[j] == text@.take(i + 1)[j]);
                    }
                }
            }
            if is_field_text(text@.take(i + 1)) {
                assert forall|j: int| 0 <= j < i implies is_value_char(
                    #[trigger] text@.take(i)[j],
                ) by {
                    assert(text@.take(i)[j] == text@.take(i + 1)[j]);
                }
            }
        }
        let n: u32 = c as u32;
        if !(c == '\t' || (n >= 32 && n != 127)) {
            ok = false;
        }
    }
    proof {
        assert(text@.take(text@.len() as int) =~= text@);
    }
    ok
}

/// Sets each field of `fields` in `headers`, in order.
pub fn set_headers(headers: &mut HeaderMap, fields: &Vec<(&'static str, String)>)
    requires
        fields_sendable(field_views(fields@)),
        has_room(
            header_names_held(*old(headers)),
            header_fields(*old(headers)),
            field_views(fields@),
        ),
    ensures
        header_fields(*final(headers)) == with_fields(
            header_fields(*old(headers)),
            field_views(fields@),
        ),
        header_names_held(*final(headers)) == header_names_held(*old(headers)) + names_added(
            header_fields(*old(headers)),
            field_views(fields@),
        ),
{
    let n = fields.len();
    let mut i: usize = 0;
    while i < n
        invariant
            i <= n,
            n == fields@.len(),
            fields_sendable(field_views(fields@)),
            has_room(
                header_names_held(*old(headers)),
                header_fields(*old(headers)),
                field_views(fields@),
            ),
            header_names_held(*headers) == header_names_held(*old(headers)) + names_added(
                header_fields(*old(headers)),
                field_views(fields@).take(i as int),
            ),
            header_fields(*headers) == with_fields(
                header_fields(*old(headers)),
                field_views(fields@).take(i as int),
            ),
        decreases n - i,
    {
        proof {
            let all = field_views(fields@);
            assert(all.take(i + 1).drop_last() =~= all.take(i as int));
            assert(all.take(i + 1).last() == all[i as int]);
            assert(is_field_name(all[i as int].0));
            assert(all.drop_last().take(i as int) =~= all.take(i as int));
            lemma_names_added_grows(header_fields(*old(headers)), all.drop_last(), i as int);
        }
        set_header(headers, fields[i].0, fields[i].1.as_str());
        i += 1;
    }
    proof {
        assert(field_views(fields@).take(n as int) =~= field_views(fields@));
    }
}

/// After fields are set, the name of the last field of its name holds the
/// bytes of that field's text and nothing else.
pub proof fn lemma_with_fields_last(base: Fields, fields: Seq<(Seq<char>, Seq<char>)>, i: int)
    requires
        0 <= i < fields.len(),
        forall|j: int| i < j < fields.len() ==> (#[trigger] fields[j]).0 != fields[i].0,
    ensures
        with_fields(base, fields).contains_key(fields[i].0),
        with_fields(base, fields)[fields[i].0] == seq![encode_utf8(fields[i].1)],
    decreases fields.len(),
{
    let last = fields.len() - 1;
    if i < last {
        let front = fields.drop_last();
        assert(front[i] == fields[i]);
        assert forall|j: int| i < j < front.len() implies (#[trigger] front[j]).0
            != front[i].0 by {
            assert(front[j] == fields[j]);
        }
        lemma_with_fields_last(base, front, i);
        assert(fields[last].0 != fields[i].0);
    }
}

/// After fields are set, a name that none of them has holds what it held
/// before.
pub proof fn lemma_with_fields_others(base: Fields, fields: Seq<(Seq<char>, Seq<char>)>, name: Seq<char>)
    requires
        forall|j: int| 0 <= j < fields.len() ==> (#[trigger] fields[j]).0 != name,
    ensures
        with_fields(base, fields).contains_key(name) == base.contains_key(name),
        with_fields(base, fields)[name] == base[name],
    decreases fields.len(),
{
    if fields.len() > 0 {
        let front = fields.drop_last();
        assert forall|j: int| 0 <= j < front.len() implies (#[trigger] front[j]).0 != name by {
            assert(front[j] == fields[j]);
        }
        lemma_with_fields_others(base, front, name);
        assert(fields[fields.len() - 1].0 != name);
    }
}

/// Setting fields adds at most one name for each of them.
pub proof fn lemma_names_added_bounds(base: Fields, fields: Seq<(Seq<char>, Seq<char>)>)
    ensures
        names_added(base, fields) <= fields.len(),
    decreases fields.len(),
{
    if fields.len() > 0 {
        lemma_names_added_bounds(base, fields.drop_last());
    }
}

/// The first fields of a list add no more names than the whole list.
pub proof fn lemma_names_added_grows(base: Fields, fields: Seq<(Seq<char>, Seq<char>)>, i: int)
    requires
        0 <= i <= fields.len(),
    ensures
        names_added(base, fields.take(i)) <= names_added(base, fields),
    decreases fields.len(),
{
    if i < fields.len() {
        assert(fields.drop_last().take(i) =~= fields.take(i));
        lemma_names_added_grows(base, fields.drop_last(), i);
    } else {
        assert(fields.take(i) =~= fields);
    }
}

/// A map with room for as many names as there are fields can take them.
pub proof fn lemma_room_by_count(held: nat, base: Fields, fields: Seq<(Seq<char>, Seq<char>)>)
    requires
        held + fields.len() <= HEADER_NAMES_LIMIT,
    ensures
        has_room(held, base, fields),
{
    if fields.len() > 0 {
        lemma_names_added_bounds(base, fields.drop_last());
    }
}

/// Setting fields removes no name.
pub proof fn lemma_with_fields_keeps_names(
    base: Fields,
    fields: Seq<(Seq<char>, Seq<char>)>,
    name: Seq<char>,
)
    requires
        base.contains_key(name),
    ensures
        with_fields(base, fields).contains_key(name),
    decreases fields.len(),
{
    if fields.len() > 0 {
        lemma_with_fields_keeps_names(base, fields.drop_last(), name);
    }
}

/// After fields are set, the name of each of them is held.
pub proof fn lemma_with_fields_holds_names(
    base: Fields,
    fields: Seq<(Seq<char>, Seq<char>)>,
    i: int,
)
    requires
        0 <= i < fields.len(),
    ensures
        with_fields(base, fields).contains_key(fields[i].0),
    decreases fields.len(),
{
    if i < fields.len() - 1 {
        assert(fields.drop_last()[i] == fields[i]);
        lemma_with_fields_holds_names(base, fields.drop_last(), i);
    }
}

/// Fields whose names are all held add no name.
pub proof fn lemma_names_added_none(base: Fields, fields: Seq<(Seq<char>, Seq<char>)>)
    requires
        forall|j: int| 0 <= j < fields.len() ==> base.contains_key((#[trigger] fields[j]).0),
    ensures
        names_added(base, fields) == 0,
    decreases fields.len(),
{
    if fields.len() > 0 {
        let front = fields.drop_last();
        let last = fields.len() - 1;
        assert forall|j: int| 0 <= j < front.len() implies base.contains_key(
            (#[trigger] front[j]).0,
        ) by {
            assert(front[j] == fields[j]);
        }
        lemma_names_added_none(base, front);
        assert(base.contains_key(fields[last].0));
        lemma_with_fields_keeps_names(base, front, fields.last().0);
    }
}

/// The last field of a given name, where there is one of that name.
pub proof fn lemma_last_of_name(fields: Seq<(Seq<char>, Seq<char>)>, name: Seq<char>) -> (i: int)
    requires
        exists|j: int| 0 <= j < fields.len() && (#[trigger] fields[j]).0 == name,
    ensures
        0 <= i < fields.len(),
        fields[i].0 == name,
        forall|j: int| i < j < fields.len() ==> (#[trigger] fields[j]).0 != name,
    decreases fields.len(),
{
    let last = fields.len() - 1;
    if fields[last].0 == name {
        last
    } else {
        let front = fields.drop_last();
        let j = choose|j: int| 0 <= j < fields.len() && (#[trigger] fields[j]).0 == name;
        assert(front[j].0 == name);
        let i = lemma_last_of_name(front, name);
        assert(fields[i] == front[i]);
        assert forall|k: int| i < k < fields.len() implies (#[trigger] fields[k]).0 != name by {
            if k < last {
                assert(front[k] == fields[k]);
            }
        }
        i
    }
}

/// Setting the same fields a second time changes nothing: the map holds
/// what it held after the first time, and no name is added.
pub proof fn lemma_set_twice_changes_nothing(base: Fields, fields: Seq<(Seq<char>, Seq<char>)>)
    ensures
        with_fields(with_fields(base, fields), fields) == with_fields(base, fields),
        names_added(with_fields(base, fields), fields) == 0,
{
    let once = with_fields(base, fields);
    let twice = with_fields(once, fields);
    assert forall|name: Seq<char>|
        #![trigger twice.dom().contains(name)]
        #![trigger twice[name]]
        twice.dom().contains(name) == once.dom().contains(name) && (once.dom().contains(name)
            ==> twice[name] == once[name]) by {
        if exists|j: int| 0 <= j < fields.len() && (#[trigger] fields[j]).0 == name {
            let i = lemma_last_of_name(fields, name);
            lemma_with_fields_last(base, fields, i);
            lemma_with_fields_last(once, fields, i);
        } else {
            lemma_with_fields_others(once, fields, name);
        }
    }
    assert(twice =~= once);
    assert forall|j: int| 0 <= j < fields.len() implies once.contains_key(
        (#[trigger] fields[j]).0,
    ) by {
        lemma_with_fields_holds_names(base, fields, j);
    }
    lemma_names_added_none(once, fields);
}

} // verus!

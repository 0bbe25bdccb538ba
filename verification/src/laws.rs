//! What holds between the writer and the reader, stated over the values of
//! documents and proved.

use crate::de::{
    advance, any_request, bool_request, char_request, entries_in, enum_request, f64_request,
    first_pair, first_value, i64_request, identifier_request, map_request, next_key_of,
    option_request, pending_of, seq_request, string_request, Pending, VisitView,
};
use crate::error::Error;
use crate::node::{distinct_keys, has_key, lookup, put, Doc};
use crate::ser::{byte_array, singleton};
use vstd::prelude::*;

verus! {

/// The entries after each of `pairs` has been put, one after the other.
pub open spec fn put_all(entries: Seq<(Seq<char>, Doc)>, pairs: Seq<(Seq<char>, Doc)>) -> Seq<
    (Seq<char>, Doc),
>
    decreases pairs.len(),
{
    if pairs.len() == 0 {
        entries
    } else {
        put_all(put(entries, pairs[0].0, pairs[0].1), pairs.drop_first())
    }
}

/// A key that is not among the entries is put last, and the entries before
/// it stay as they are.
pub proof fn lemma_put_new_key(entries: Seq<(Seq<char>, Doc)>, key: Seq<char>, value: Doc)
    requires
        !has_key(entries, key),
    ensures
        put(entries, key, value) == entries.push((key, value)),
    decreases entries.len(),
{
    if entries.len() == 0 {
        assert(put(entries, key, value) =~= entries.push((key, value)));
    } else {
        assert(entries[0].0 != key);
        let rest = entries.drop_first();
        assert(!has_key(rest, key)) by {
            if has_key(rest, key) {
                let i = choose|i: int| 0 <= i < rest.len() && (#[trigger] rest[i]).0 == key;
                assert(entries[i + 1].0 == key);
            }
        }
        lemma_put_new_key(rest, key, value);
        assert(put(entries, key, value) =~= entries.push((key, value)));
    }
}

/// Putting a value under a key leaves the number of entries, their keys and
/// their order as they are where the key is among them; the value can be
/// looked up under the key afterwards in either case.
pub proof fn lemma_put_keeps_order(entries: Seq<(Seq<char>, Doc)>, key: Seq<char>, value: Doc)
    ensures
        lookup(put(entries, key, value), key) == Some(value),
        has_key(entries, key) ==> put(entries, key, value).len() == entries.len(),
        has_key(entries, key) ==> forall|i: int|
            0 <= i < entries.len() ==> (#[trigger] put(entries, key, value)[i]).0 == entries[i].0,
    decreases entries.len(),
{
    if entries.len() == 0 {
    } else if entries[0].0 == key {
    } else {
        let rest = entries.drop_first();
        lemma_put_keeps_order(rest, key, value);
        let after = put(entries, key, value);
        assert(after.drop_first() =~= put(rest, key, value));
        if has_key(entries, key) {
            let i = choose|i: int| 0 <= i < entries.len() && (#[trigger] entries[i]).0 == key;
            assert(rest[i - 1].0 == key);
            assert(has_key(rest, key));
            assert forall|j: int| 0 <= j < entries.len() implies (#[trigger] after[j]).0
                == entries[j].0 by {
                if j > 0 {
                    assert(after[j] == put(rest, key, value)[j - 1]);
                    assert(entries[j] == rest[j - 1]);
                }
            }
        }
    }
}

/// Putting a value under a key leaves no two entries under the same key
/// where there were none before.
pub proof fn lemma_put_keeps_keys_distinct(
    entries: Seq<(Seq<char>, Doc)>,
    key: Seq<char>,
    value: Doc,
)
    requires
        distinct_keys(entries),
    ensures
        distinct_keys(put(entries, key, value)),
{
    let after = put(entries, key, value);
    if has_key(entries, key) {
        lemma_put_keeps_order(entries, key, value);
        assert forall|i: int, j: int| 0 <= i < j < after.len() implies (#[trigger] after[i]).0 != (
        #[trigger] after[j]).0 by {
            assert(after[i].0 == entries[i].0);
            assert(after[j].0 == entries[j].0);
        }
    } else {
        lemma_put_new_key(entries, key, value);
        assert forall|i: int, j: int| 0 <= i < j < after.len() implies (#[trigger] after[i]).0 != (
        #[trigger] after[j]).0 by {
            if j == entries.len() {
                assert(after[i] == entries[i]);
            } else {
                assert(after[i] == entries[i]);
                assert(after[j] == entries[j]);
            }
        }
    }
}

/// Entries that are put one after the other under keys that differ from one
/// another, and from those already there, end up behind the entries that
/// were there, in the order in which they were put.
pub proof fn lemma_put_all_appends(entries: Seq<(Seq<char>, Doc)>, pairs: Seq<(Seq<char>, Doc)>)
    requires
        distinct_keys(entries + pairs),
    ensures
        put_all(entries, pairs) == entries + pairs,
    decreases pairs.len(),
{
    if pairs.len() == 0 {
        assert(entries + pairs =~= entries);
    } else {
        let all = entries + pairs;
        let first = pairs[0];
        assert(!has_key(entries, first.0)) by {
            if has_key(entries, first.0) {
                let i = choose|i: int| 0 <= i < entries.len() && (#[trigger] entries[i]).0 == first.0;
                assert(all[i] == entries[i]);
                assert(all[entries.len() as int] == first);
            }
        }
        lemma_put_new_key(entries, first.0, first.1);
        let next = entries.push(first);
        assert(next + pairs.drop_first() =~= all);
        lemma_put_all_appends(next, pairs.drop_first());
    }
}

/// Putting entries one after the other leaves no two entries under the
/// same key where there were none before.
pub proof fn lemma_put_all_keeps_keys_distinct(
    entries: Seq<(Seq<char>, Doc)>,
    pairs: Seq<(Seq<char>, Doc)>,
)
    requires
        distinct_keys(entries),
    ensures
        distinct_keys(put_all(entries, pairs)),
    decreases pairs.len(),
{
    if pairs.len() > 0 {
        lemma_put_keeps_keys_distinct(entries, pairs[0].0, pairs[0].1);
        lemma_put_all_keeps_keys_distinct(
            put(entries, pairs[0].0, pairs[0].1),
            pairs.drop_first(),
        );
    }
}

/// The keys of an object are unique: whatever entries are put one after the
/// other, starting from none, no two of the entries that result stand
/// under the same key.
pub proof fn law_built_keys_are_distinct(pairs: Seq<(Seq<char>, Doc)>)
    ensures
        distinct_keys(put_all(Seq::empty(), pairs)),
{
    lemma_put_all_keeps_keys_distinct(Seq::empty(), pairs);
}

/// Order is kept: an object that is built by putting entries under keys
/// that differ from one another is read back as an iteration over the same
/// entries in the order in which they were put.
pub proof fn law_insertion_order_is_read_back(pairs: Seq<(Seq<char>, Doc)>)
    requires
        distinct_keys(pairs),
    ensures
        map_request(Doc::Object(put_all(Seq::empty(), pairs))) == Ok::<VisitView, Error>(
            VisitView::Mapping(Pending { entries: pairs, started_empty: pairs.len() == 0 }),
        ),
{
    assert(Seq::<(Seq<char>, Doc)>::empty() + pairs =~= pairs);
    lemma_put_all_appends(Seq::empty(), pairs);
}

/// An array is read back as an iteration over its items in their order,
/// each one under an empty key.
pub proof fn law_array_is_read_back(items: Seq<Doc>)
    ensures
        seq_request(Doc::Array(items)) == Ok::<VisitView, Error>(
            VisitView::Sequence(pending_of(Doc::Array(items))),
        ),
        entries_in(Doc::Array(items)).len() == items.len(),
        forall|i: int|
            0 <= i < items.len() ==> (#[trigger] entries_in(Doc::Array(items))[i]) == (
                Seq::<char>::empty(),
                items[i],
            ),
{
}

/// The three ways in which a variant is written are read back as what was
/// written: a bare string as the unit variant of that name; an object of
/// one entry as the variant that the entry's key names, with the entry's
/// value as its content, whether that is a single value, an array or an
/// object.
pub proof fn law_variant_is_read_back(name: Seq<char>, content: Doc)
    ensures
        enum_request(Doc::String(name)) == Ok::<VisitView, Error>(VisitView::UnitVariant(name)),
        enum_request(singleton(name, content)) == Ok::<VisitView, Error>(
            VisitView::Enum(seq![(name, content)]),
        ),
        first_pair(seq![(name, content)]) == Ok::<Doc, Error>(
            Doc::Pair(name, Box::new(content), 0),
        ),
        identifier_request(Doc::Pair(name, Box::new(content), 0)) == Ok::<VisitView, Error>(
            VisitView::String(name),
        ),
        first_value(seq![(name, content)]) == Ok::<Doc, Error>(content),
{
}

/// A scalar is read back as it was written, and an absent value, which is
/// written as null, as absent. Any other node is read as a present value
/// that is the node itself.
pub proof fn law_scalar_is_read_back(doc: Doc)
    ensures
        doc matches Doc::Bool(b) ==> bool_request(doc) == Ok::<VisitView, Error>(
            VisitView::Bool(b),
        ),
        doc matches Doc::Integer(n) ==> (i64::MIN <= n <= i64::MAX && isize::MIN <= n
            <= isize::MAX ==> i64_request(doc) == Ok::<VisitView, Error>(VisitView::I64(n as i64))),
        doc matches Doc::Float(bits) ==> f64_request(doc) == Ok::<VisitView, Error>(
            VisitView::F64(bits),
        ),
        doc matches Doc::String(text) ==> string_request(doc) == Ok::<VisitView, Error>(
            VisitView::String(text),
        ),
        doc matches Doc::String(text) ==> (text.len() == 1 ==> char_request(doc) == Ok::<
            VisitView,
            Error,
        >(VisitView::Char(text[0]))),
        option_request(Doc::Null) == Ok::<VisitView, Error>(VisitView::Absent),
        !(doc is Null) ==> option_request(doc) == Ok::<VisitView, Error>(VisitView::Present(doc)),
{
}

/// A character is read back as it was written: the string of the one
/// character, whatever the character is, is read as that character.
pub proof fn law_char_is_read_back(c: char)
    ensures
        char_request(Doc::String(seq![c])) == Ok::<VisitView, Error>(VisitView::Char(c)),
{
}

/// The mark of an iteration agrees with its entries from the start and
/// while entries are taken, and where it does, the iteration hands out no
/// key exactly where no entry is left.
pub proof fn law_mark_agrees_with_entries(doc: Doc, pending: Pending)
    requires
        pending.coherent(),
    ensures
        pending_of(doc).coherent(),
        pending.entries.len() > 0 ==> advance(pending).coherent(),
        next_key_of(pending).is_none() <==> pending.entries.len() == 0,
{
}

/// A valueless unit cannot be read: a null node that is read as what its
/// tag says ends in the error for it, like every request for a unit.
pub proof fn law_null_is_no_unit()
    ensures
        any_request(Doc::Null) == Err::<VisitView, Error>(Error::UnitNotSupported),
{
}

/// A node of another tag than the one asked for ends the request in the
/// error of that shape: nothing is handed out in its place.
pub proof fn law_mismatch_is_an_error(doc: Doc)
    ensures
        !(doc is Bool) ==> bool_request(doc) == Err::<VisitView, Error>(
            Error::ExpectedBoolean(None),
        ),
        !(doc is Integer) ==> i64_request(doc) == Err::<VisitView, Error>(
            Error::ExpectedInteger(None),
        ),
        !(doc is Float) ==> f64_request(doc) == Err::<VisitView, Error>(Error::ExpectedFloat(None)),
        !(doc is String) ==> char_request(doc) == Err::<VisitView, Error>(
            Error::ExpectedChar(None),
        ),
        !(doc is String || doc is Pair) ==> string_request(doc) == Err::<VisitView, Error>(
            Error::ExpectedString(None),
        ),
        !(doc is String || doc is Pair) ==> identifier_request(doc) == Err::<VisitView, Error>(
            Error::ExpectedIdentifier,
        ),
        !(doc is Array) ==> seq_request(doc) == Err::<VisitView, Error>(Error::ExpectedArray(None)),
        !(doc is Object) ==> map_request(doc) == Err::<VisitView, Error>(Error::ExpectedMap(None)),
        !(doc is String || doc is Object) ==> enum_request(doc) == Err::<VisitView, Error>(
            Error::ExpectedEnum,
        ),
{
}

/// An object without entries ends the iteration over it before the first
/// key, and so stands for a structure without fields.
pub proof fn law_empty_object_ends_at_once()
    ensures
        map_request(Doc::Object(Seq::empty())) == Ok::<VisitView, Error>(
            VisitView::Mapping(Pending { entries: Seq::empty(), started_empty: true }),
        ),
        next_key_of(pending_of(Doc::Object(Seq::empty()))).is_none(),
{
}

/// Whether a document holds no key/value pair node, at any depth.
pub open spec fn pair_free(doc: Doc) -> bool
    decreases doc,
{
    match doc {
        Doc::Array(items) => forall|i: int| 0 <= i < items.len() ==> pair_free(#[trigger] items[i]),
        Doc::Object(entries) => forall|i: int|
            0 <= i < entries.len() ==> pair_free((#[trigger] entries[i]).1),
        Doc::Pair(_, _, _) => false,
        _ => true,
    }
}

/// Whether a document holds no pair inside a pair: it is either free of
/// pairs, or one pair around a value that is.
pub open spec fn flat(doc: Doc) -> bool {
    match doc {
        Doc::Pair(_, value, _) => pair_free(*value),
        _ => pair_free(doc),
    }
}

/// Whether the values of all the entries are free of pairs.
pub open spec fn values_pair_free(entries: Seq<(Seq<char>, Doc)>) -> bool {
    forall|i: int| 0 <= i < entries.len() ==> pair_free((#[trigger] entries[i]).1)
}

/// The writer makes no pairs: what it builds from parts that are free of
/// pairs is free of them.
pub proof fn law_writer_makes_no_pairs(
    name: Seq<char>,
    content: Doc,
    items: Seq<Doc>,
    entries: Seq<(Seq<char>, Doc)>,
    bytes: Seq<u8>,
)
    requires
        pair_free(content),
        pair_free(Doc::Array(items)),
        pair_free(Doc::Object(entries)),
    ensures
        pair_free(singleton(name, content)),
        pair_free(Doc::Array(items.push(content))),
        pair_free(Doc::Object(put(entries, name, content))),
        pair_free(byte_array(bytes)),
        pair_free(Doc::Array(Seq::empty())),
        pair_free(Doc::Object(Seq::empty())),
{
    assert(Doc::Array(items)->Array_0 == items);
    assert(Doc::Object(entries)->Object_0 == entries);
    lemma_put_keeps_values_pair_free(entries, name, content);
    let longer = items.push(content);
    assert forall|i: int| 0 <= i < longer.len() implies pair_free(#[trigger] longer[i]) by {
        if i < items.len() {
            assert(longer[i] == items[i]);
        }
    }
    let digits = byte_array(bytes)->Array_0;
    assert forall|i: int| 0 <= i < digits.len() implies pair_free(#[trigger] digits[i]) by {
        assert(digits[i] == Doc::Integer(bytes[i] as int));
    }
}

/// Putting a value that is free of pairs among entries whose values are
/// leaves all the values free of pairs.
pub proof fn lemma_put_keeps_values_pair_free(
    entries: Seq<(Seq<char>, Doc)>,
    key: Seq<char>,
    value: Doc,
)
    requires
        values_pair_free(entries),
        pair_free(value),
    ensures
        values_pair_free(put(entries, key, value)),
    decreases entries.len(),
{
    let after = put(entries, key, value);
    if entries.len() == 0 {
    } else if entries[0].0 == key {
        assert forall|i: int| 0 <= i < after.len() implies pair_free((#[trigger] after[i]).1) by {
            if i > 0 {
                assert(after[i] == entries[i]);
            }
        }
    } else {
        let rest = entries.drop_first();
        assert forall|i: int| 0 <= i < rest.len() implies pair_free((#[trigger] rest[i]).1) by {
            assert(rest[i] == entries[i + 1]);
        }
        lemma_put_keeps_values_pair_free(rest, key, value);
        assert forall|i: int| 0 <= i < after.len() implies pair_free((#[trigger] after[i]).1) by {
            if i > 0 {
                assert(after[i] == put(rest, key, value)[i - 1]);
            } else {
                assert(after[0] == entries[0]);
            }
        }
    }
}

/// A pair is never nested in a pair: the reader wraps only what it takes out
/// of the document, so on a document that is free of pairs every key that
/// an iteration hands out is one pair around a value free of pairs, every
/// value is free of pairs, and so it stays as the iteration moves on.
pub proof fn law_reader_keeps_pairs_flat(doc: Doc)
    requires
        pair_free(doc),
    ensures
        values_pair_free(entries_in(doc)),
        next_key_of(pending_of(doc)) matches Some(pair) ==> flat(pair),
        first_pair(entries_in(doc)) matches Ok(pair) ==> flat(pair),
        first_value(entries_in(doc)) matches Ok(value) ==> pair_free(value),
        entries_in(doc).len() > 0 ==> values_pair_free(advance(pending_of(doc)).entries),
{
    let entries = entries_in(doc);
    assert(values_pair_free(entries)) by {
        assert forall|i: int| 0 <= i < entries.len() implies pair_free((#[trigger] entries[i]).1) by {
            match doc {
                Doc::Array(items) => {
                    assert(entries[i].1 == items[i]);
                },
                _ => {},
            }
        }
    }
    if entries.len() > 0 {
        assert(pair_free(entries[0].1));
        let rest = entries.drop_first();
        assert forall|i: int| 0 <= i < rest.len() implies pair_free((#[trigger] rest[i]).1) by {
            assert(rest[i] == entries[i + 1]);
        }
    }
}

} // verus!

//! Looking up fields in a form-encoded query string.
//!
//! A query is a list of fields separated by `&`. Empty fields are skipped.
//! Within a field the first `=` separates the key from the value; a field
//! without `=` has an empty value. Keys and values are form-decoded.

use crate::ascii::{AMPERSAND, EQUALS, PERCENT, PLUS};
use crate::percent::{all_literal, form_decode, form_decode_bytes, lemma_form_decode_literal};
use vstd::prelude::*;
use vstd::slice::slice_subrange;

verus! {

/// The byte `&`, which separates fields.
pub open spec fn field_separator() -> u8 {
    AMPERSAND
}

/// The byte `=`, which separates a key from its value.
pub open spec fn value_separator() -> u8 {
    EQUALS
}

/// The position of the first `sep` in `s`, or the length of `s` if there is
/// none.
pub open spec fn find_byte(s: Seq<u8>, sep: u8) -> int
    decreases s.len(),
{
    if s.len() == 0 || s[0] == sep {
        0
    } else {
        1 + find_byte(s.skip(1), sep)
    }
}

/// The decoded key of one field.
pub open spec fn field_key(field: Seq<u8>) -> Seq<u8> {
    form_decode(field.take(find_byte(field, value_separator())))
}

/// The decoded value of one field.
pub open spec fn field_value(field: Seq<u8>) -> Seq<u8> {
    let at = find_byte(field, value_separator());
    if 0 <= at < field.len() {
        form_decode(field.skip(at + 1))
    } else {
        Seq::empty()
    }
}

/// What one field contributes to the values of `key`.
pub open spec fn field_values(field: Seq<u8>, key: Seq<u8>) -> Seq<Seq<u8>> {
    if field.len() > 0 && field_key(field) == key {
        seq![field_value(field)]
    } else {
        Seq::empty()
    }
}

/// The values of all fields of `query` whose key is `key`, in the order in
/// which they appear.
pub open spec fn values_for(query: Seq<u8>, key: Seq<u8>) -> Seq<Seq<u8>>
    decreases query.len(),
{
    if query.len() == 0 {
        Seq::empty()
    } else {
        let end = find_byte(query, field_separator());
        if 0 <= end < query.len() {
            field_values(query.take(end), key) + values_for(query.skip(end + 1), key)
        } else {
            field_values(query, key)
        }
    }
}

/// Bytes that are neither separators nor changed by form decoding.
pub open spec fn is_plain(b: u8) -> bool {
    b != AMPERSAND && b != EQUALS && b != PERCENT && b != PLUS
}

/// Every byte of `s` is plain.
pub open spec fn all_plain(s: Seq<u8>) -> bool {
    forall|i: int| 0 <= i < s.len() ==> is_plain(#[trigger] s[i])
}

/// The views of a list of byte vectors.
pub open spec fn views(v: Seq<Vec<u8>>) -> Seq<Seq<u8>> {
    Seq::new(v.len(), |i: int| v[i]@)
}

/// `find_byte` finds the first occurrence, or stops at the end.
pub proof fn lemma_find_byte(s: Seq<u8>, sep: u8)
    ensures
        0 <= find_byte(s, sep) <= s.len(),
        find_byte(s, sep) < s.len() ==> s[find_byte(s, sep)] == sep,
        forall|i: int| 0 <= i < find_byte(s, sep) ==> #[trigger] s[i] != sep,
    decreases s.len(),
{
    if s.len() != 0 && s[0] != sep {
        let tail = s.skip(1);
        lemma_find_byte(tail, sep);
        assert forall|i: int| 0 <= i < find_byte(s, sep) implies #[trigger] s[i] != sep by {
            if i > 0 {
                assert(tail[i - 1] == s[i]);
            }
        }
    }
}

/// A position before which `sep` does not occur, and which holds `sep` or is
/// the end, is the one that `find_byte` finds.
pub proof fn lemma_find_byte_at(s: Seq<u8>, sep: u8, at: int)
    requires
        0 <= at <= s.len(),
        forall|i: int| 0 <= i < at ==> #[trigger] s[i] != sep,
        at < s.len() ==> s[at] == sep,
    ensures
        find_byte(s, sep) == at,
{
    lemma_find_byte(s, sep);
    let found = find_byte(s, sep);
    if found < at {
        assert(s[found] != sep);
    } else if found > at {
        assert(s[at] != sep);
    }
}

/// A field made of a plain key, `=` and a plain value decodes to that key and
/// that value.
pub proof fn lemma_plain_field(key: Seq<u8>, value: Seq<u8>)
    requires
        all_plain(key),
        all_plain(value),
    ensures
        field_key(key + seq![value_separator()] + value) == key,
        field_value(key + seq![value_separator()] + value) == value,
{
    let field = key + seq![value_separator()] + value;
    assert forall|i: int| 0 <= i < key.len() implies #[trigger] field[i] != value_separator() by {
        assert(is_plain(key[i]));
    }
    lemma_find_byte_at(field, value_separator(), key.len() as int);
    assert(field.take(key.len() as int) =~= key);
    assert(field.skip(key.len() as int + 1) =~= value);
    assert(all_literal(key)) by {
        assert forall|i: int| 0 <= i < key.len() implies crate::percent::is_literal(
            #[trigger] key[i],
        ) by {
            assert(is_plain(key[i]));
        }
    }
    assert(all_literal(value)) by {
        assert forall|i: int| 0 <= i < value.len() implies crate::percent::is_literal(
            #[trigger] value[i],
        ) by {
            assert(is_plain(value[i]));
        }
    }
    lemma_form_decode_literal(key);
    lemma_form_decode_literal(value);
}

/// The values found in a query that consists of one plain field.
pub proof fn lemma_values_for_last(key: Seq<u8>, value: Seq<u8>, wanted: Seq<u8>)
    requires
        all_plain(key),
        all_plain(value),
    ensures
        values_for(key + seq![value_separator()] + value, wanted) == if key == wanted {
            seq![value]
        } else {
            Seq::<Seq<u8>>::empty()
        },
{
    let field = key + seq![value_separator()] + value;
    lemma_plain_field(key, value);
    assert forall|i: int| 0 <= i < field.len() implies #[trigger] field[i] != field_separator() by {
        if i < key.len() {
            assert(is_plain(key[i]));
        } else if i > key.len() {
            assert(is_plain(value[i - key.len() - 1]));
        }
    }
    lemma_find_byte_at(field, field_separator(), field.len() as int);
}

/// The values found in a query that starts with a plain field, followed by
/// `&` and more.
pub proof fn lemma_values_for_first(
    key: Seq<u8>,
    value: Seq<u8>,
    rest: Seq<u8>,
    wanted: Seq<u8>,
)
    requires
        all_plain(key),
        all_plain(value),
    ensures
        values_for(
            key + seq![value_separator()] + value + seq![field_separator()] + rest,
            wanted,
        ) == (if key == wanted {
            seq![value]
        } else {
            Seq::<Seq<u8>>::empty()
        }) + values_for(rest, wanted),
{
    let field = key + seq![value_separator()] + value;
    let query = field + seq![field_separator()] + rest;
    lemma_plain_field(key, value);
    assert forall|i: int| 0 <= i < field.len() implies #[trigger] query[i] != field_separator() by {
        if i < key.len() {
            assert(is_plain(key[i]));
        } else if i > key.len() {
            assert(is_plain(value[i - key.len() - 1]));
        }
    }
    lemma_find_byte_at(query, field_separator(), field.len() as int);
    assert(query.take(field.len() as int) =~= field);
    assert(query.skip(field.len() as int + 1) =~= rest);
}

/// The position of the first `sep` in `s`, or its length.
pub fn position(s: &[u8], sep: u8) -> (at: usize)
    ensures
        at == find_byte(s@, sep),
        at <= s@.len(),
{
    let n = s.len();
    let mut i: usize = 0;
    while i < n && s[i] != sep
        invariant
            n == s@.len(),
            i <= n,
            forall|k: int| 0 <= k < i ==> #[trigger] s@[k] != sep,
        decreases n - i,
    {
        i = i + 1;
    }
    proof {
        lemma_find_byte_at(s@, sep, i as int);
    }
    i
}

/// Whether two byte strings are the same.
pub fn same_bytes(a: &[u8], b: &[u8]) -> (r: bool)
    ensures
        r == (a@ == b@),
{
    if a.len() != b.len() {
        return false;
    }
    let n = a.len();
    let mut i: usize = 0;
    while i < n
        invariant
            n == a@.len(),
            n == b@.len(),
            i <= n,
            forall|k: int| 0 <= k < i ==> a@[k] == b@[k],
        decreases n - i,
    {
        if a[i] != b[i] {
            return false;
        }
        i = i + 1;
    }
    assert(a@ =~= b@);
    true
}

/// Collects the values of all fields of `query` whose key is `key`.
pub fn lookup(query: &[u8], key: &[u8]) -> (found: Vec<Vec<u8>>)
    ensures
        views(found@) == values_for(query@, key@),
{
    let mut found: Vec<Vec<u8>> = Vec::new();
    let mut rest: &[u8] = query;
    proof {
        assert(views(found@) + values_for(rest@, key@) =~= values_for(query@, key@));
    }
    while rest.len() > 0
        invariant
            views(found@) + values_for(rest@, key@) == values_for(query@, key@),
        decreases rest@.len(),
    {
        let ghost before = views(found@);
        let ghost all = rest@;
        let end = position(rest, AMPERSAND);
        let field = slice_subrange(rest, 0, end);
        proof {
            assert(field@ =~= all.take(end as int));
        }
        if end > 0 {
            let at = position(field, EQUALS);
            let name = form_decode_bytes(slice_subrange(field, 0, at));
            proof {
                assert(field@.subrange(0, at as int) =~= field@.take(at as int));
            }
            if same_bytes(name.as_slice(), key) {
                let value = if at < field.len() {
                    proof {
                        assert(field@.subrange(at + 1, field@.len() as int) =~= field@.skip(
                            at + 1,
                        ));
                    }
                    form_decode_bytes(slice_subrange(field, at + 1, field.len()))
                } else {
                    Vec::new()
                };
                found.push(value);
                proof {
                    assert(views(found@) =~= before + seq![field_value(field@)]);
                }
            }
        }
        proof {
            assert(views(found@) =~= before + field_values(field@, key@));
        }
        if end < rest.len() {
            rest = slice_subrange(rest, end + 1, rest.len());
            proof {
                assert(rest@ =~= all.skip(end + 1));
            }
        } else {
            rest = slice_subrange(rest, end, end);
            proof {
                assert(all.take(end as int) =~= all);
                assert(rest@ =~= Seq::<u8>::empty());
            }
        }
        proof {
            assert(field_values(field@, key@) + values_for(rest@, key@) =~= values_for(all, key@));
            assert(views(found@) + values_for(rest@, key@) =~= before + values_for(all, key@));
        }
    }
    proof {
        assert(views(found@) + values_for(rest@, key@) =~= views(found@));
    }
    found
}

} // verus!

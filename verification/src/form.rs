//! A verified parser for `application/x-www-form-urlencoded` bodies, as
//! HTML forms submit them: pairs separated by `&`, each pair split at its
//! first `=`, names and values percent-decoded with `+` standing for a
//! space. The one question the dispatcher asks of a body is answered by
//! [`form_key_value`]: the decoded value of the first pair whose decoded
//! name is `key`.

use vstd::prelude::*;

use crate::bytes::range_eq;

verus! {

/// `&`, the pair separator.
pub const AMPERSAND: u8 = 38;

/// `=`, the name/value separator.
pub const EQUALS_SIGN: u8 = 61;

/// `%`, the escape byte.
pub const PERCENT: u8 = 37;

/// `+`, which decodes to a space.
pub const PLUS: u8 = 43;

/// The space byte.
pub const SPACE: u8 = 32;

/// Whether `b` is an ASCII hex digit (either case).
pub open spec fn is_hex_digit(b: u8) -> bool {
    (48 <= b && b <= 57) || (97 <= b && b <= 102) || (65 <= b && b <= 70)
}

/// The numeric value of the hex digit `b`.
pub open spec fn hex_value(b: u8) -> u8
    recommends
        is_hex_digit(b),
{
    if 48 <= b && b <= 57 {
        (b - 48) as u8
    } else if 97 <= b && b <= 102 {
        (b - 97 + 10) as u8
    } else {
        (b - 65 + 10) as u8
    }
}

/// The percent-decoding of `s`: `%` followed by two hex digits becomes the
/// byte they spell, a `%` not so followed stays as it is, `+` becomes a
/// space, and every other byte is kept unchanged.
pub open spec fn decode(s: Seq<u8>) -> Seq<u8>
    decreases s.len(),
{
    if s.len() == 0 {
        Seq::empty()
    } else if s[0] == PERCENT && s.len() >= 3 && is_hex_digit(s[1]) && is_hex_digit(s[2]) {
        seq![(hex_value(s[1]) * 16 + hex_value(s[2])) as u8] + decode(s.skip(3))
    } else if s[0] == PLUS {
        seq![SPACE] + decode(s.skip(1))
    } else {
        seq![s[0]] + decode(s.skip(1))
    }
}

/// The index of the first occurrence of `b` in `s`, or `s.len()` if there
/// is none.
pub open spec fn find_byte(s: Seq<u8>, b: u8) -> nat
    decreases s.len(),
{
    if s.len() == 0 {
        0
    } else if s[0] == b {
        0
    } else {
        1 + find_byte(s.skip(1), b)
    }
}

/// `find_byte` is the index `i` whenever nothing before `i` matches and
/// `i` is a match or the end.
pub proof fn lemma_find_byte_is(s: Seq<u8>, b: u8, i: int)
    requires
        0 <= i <= s.len(),
        forall|j: int| 0 <= j < i ==> s[j] != b,
        i < s.len() ==> s[i] == b,
    ensures
        find_byte(s, b) == i,
    decreases s.len(),
{
    if i == 0 {
    } else {
        assert(s[0] != b);
        let t = s.skip(1);
        assert forall|j: int| 0 <= j < i - 1 implies t[j] != b by {
            assert(t[j] == s[j + 1]);
        }
        assert(i - 1 < t.len() ==> t[i - 1] == s[i]);
        lemma_find_byte_is(t, b, i - 1);
    }
}

/// The decoded (name, value) of one `&`-free segment: the name is what
/// stands before the first `=`, the value what stands after it, and a
/// segment without `=` has an empty value.
pub open spec fn split_pair(seg: Seq<u8>) -> (Seq<u8>, Seq<u8>) {
    let j = find_byte(seg, EQUALS_SIGN);
    if j < seg.len() {
        (decode(seg.take(j as int)), decode(seg.skip(j as int + 1)))
    } else {
        (decode(seg), Seq::empty())
    }
}

/// The decoded (name, value) pairs of a form body, in order: split on `&`,
/// empty segments skipped, each segment split at its first `=`.
pub open spec fn parse_form(s: Seq<u8>) -> Seq<(Seq<u8>, Seq<u8>)>
    decreases s.len(),
{
    if s.len() == 0 {
        Seq::empty()
    } else {
        let i = find_byte(s, AMPERSAND);
        let seg = s.take(i as int);
        let rest = if i < s.len() {
            s.skip(i as int + 1)
        } else {
            Seq::<u8>::empty()
        };
        if seg.len() == 0 {
            parse_form(rest)
        } else {
            seq![split_pair(seg)] + parse_form(rest)
        }
    }
}

/// The value of the first pair in `pairs` whose name is `name`.
pub open spec fn first_value(pairs: Seq<(Seq<u8>, Seq<u8>)>, name: Seq<u8>) -> Option<Seq<u8>>
    decreases pairs.len(),
{
    if pairs.len() == 0 {
        None
    } else if pairs[0].0 == name {
        Some(pairs[0].1)
    } else {
        first_value(pairs.skip(1), name)
    }
}

/// The bytes of the form field name `key`.
pub open spec fn key_name() -> Seq<u8> {
    seq![107u8, 101u8, 121u8]
}

/// The decoded value of the first `key` field of the form body, if any.
pub open spec fn form_key(body: Seq<u8>) -> Option<Seq<u8>> {
    first_value(parse_form(body), key_name())
}

/// A byte sequence holding neither `%` nor `+` decodes to itself.
pub proof fn lemma_decode_plain(s: Seq<u8>)
    requires
        forall|j: int| 0 <= j < s.len() ==> s[j] != PERCENT && s[j] != PLUS,
    ensures
        decode(s) == s,
    decreases s.len(),
{
    if s.len() > 0 {
        let t = s.skip(1);
        assert forall|j: int| 0 <= j < t.len() implies t[j] != PERCENT && t[j] != PLUS by {
            assert(t[j] == s[j + 1]);
        }
        lemma_decode_plain(t);
        assert(seq![s[0]] + t =~= s);
    }
}

/// The submitted value reaches the unlock attempt verbatim: a body that
/// spells `key=` followed by a value holding no `&`, `%` or `+` has
/// exactly that value as its `key` field — nothing is trimmed and nothing
/// is re-encoded on the way.
pub proof fn lemma_key_value_verbatim(v: Seq<u8>)
    requires
        forall|j: int| 0 <= j < v.len() ==> v[j] != AMPERSAND && v[j] != PERCENT && v[j] != PLUS,
    ensures
        form_key(key_name() + seq![EQUALS_SIGN] + v) == Some(v),
{
    let body = key_name() + seq![EQUALS_SIGN] + v;
    assert(body[0] == 107u8 && body[1] == 101u8 && body[2] == 121u8 && body[3] == EQUALS_SIGN);
    assert forall|j: int| 0 <= j < body.len() implies body[j] != AMPERSAND by {
        if j >= 4 {
            assert(body[j] == v[j - 4]);
        }
    }
    lemma_find_byte_is(body, AMPERSAND, body.len() as int);
    assert(body.take(body.len() as int) =~= body);
    assert forall|j: int| 0 <= j < 3 implies body[j] != EQUALS_SIGN by {}
    lemma_find_byte_is(body, EQUALS_SIGN, 3);
    assert(body.take(3) =~= key_name());
    assert(body.skip(4) =~= v);
    assert forall|j: int| 0 <= j < key_name().len() implies key_name()[j] != PERCENT
        && key_name()[j] != PLUS by {}
    lemma_decode_plain(key_name());
    lemma_decode_plain(v);
    assert(split_pair(body) == (key_name(), v));
    assert(parse_form(body) == seq![(key_name(), v)] + parse_form(Seq::<u8>::empty()));
    lemma_first_value_step((key_name(), v), parse_form(Seq::<u8>::empty()), key_name());
}

proof fn lemma_first_value_step(p: (Seq<u8>, Seq<u8>), rest: Seq<(Seq<u8>, Seq<u8>)>, name: Seq<u8>)
    ensures
        first_value(seq![p] + rest, name) == (if p.0 == name {
            Some(p.1)
        } else {
            first_value(rest, name)
        }),
{
    let s = seq![p] + rest;
    assert(s[0] == p);
    assert(s.skip(1) =~= rest);
}

/// Exec check of `is_hex_digit`.
fn is_hex(b: u8) -> (r: bool)
    ensures
        r == is_hex_digit(b),
{
    (48 <= b && b <= 57) || (97 <= b && b <= 102) || (65 <= b && b <= 70)
}

/// Exec computation of `hex_value`.
fn hex_val(b: u8) -> (r: u8)
    requires
        is_hex_digit(b),
    ensures
        r == hex_value(b),
        r < 16,
{
    if 48 <= b && b <= 57 {
        b - 48
    } else if 97 <= b && b <= 102 {
        b - 97 + 10
    } else {
        b - 65 + 10
    }
}

/// Percent-decodes the range `[lo, hi)` of `s`.
pub fn decode_range(s: &Vec<u8>, lo: usize, hi: usize) -> (r: Vec<u8>)
    requires
        lo <= hi <= s@.len(),
    ensures
        r@ == decode(s@.subrange(lo as int, hi as int)),
{
    let mut out: Vec<u8> = Vec::new();
    let mut i: usize = lo;
    while i < hi
        invariant
            lo <= i <= hi <= s@.len(),
            decode(s@.subrange(lo as int, hi as int)) == out@ + decode(
                s@.subrange(i as int, hi as int),
            ),
        decreases hi - i,
    {
        let ghost t = s@.subrange(i as int, hi as int);
        assert(t[0] == s@[i as int]);
        if s[i] == PERCENT && hi - i >= 3 && is_hex(s[i + 1]) && is_hex(s[i + 2]) {
            assert(t.len() >= 3 && t[1] == s@[i as int + 1] && t[2] == s@[i as int + 2]);
            let d: u8 = hex_val(s[i + 1]) * 16 + hex_val(s[i + 2]);
            out.push(d);
            assert(t.skip(3) =~= s@.subrange(i as int + 3, hi as int));
            assert(decode(t) == seq![d] + decode(t.skip(3)));
            i = i + 3;
        } else {
            let b: u8 = s[i];
            if b == PLUS {
                out.push(SPACE);
            } else {
                out.push(b);
            }
            assert(t.skip(1) =~= s@.subrange(i as int + 1, hi as int));
            i = i + 1;
        }
        assert(decode(s@.subrange(lo as int, hi as int)) == out@ + decode(
            s@.subrange(i as int, hi as int),
        ));
    }
    assert(s@.subrange(hi as int, hi as int) =~= Seq::<u8>::empty());
    assert(out@ + Seq::<u8>::empty() =~= out@);
    out
}

/// The bytes of the field name `key`.
fn key_bytes() -> (r: Vec<u8>)
    ensures
        r@ == key_name(),
{
    let v: Vec<u8> = vec![107u8, 101u8, 121u8];
    assert(v@ =~= key_name());
    v
}

/// Extracts the decoded value of the first `key` field of a form body.
///
/// Returns `None` exactly when no pair of the body has the decoded name
/// `key`; otherwise the first such pair's decoded value, exactly as
/// decoded, with nothing trimmed and nothing re-encoded.
pub fn form_key_value(body: &Vec<u8>) -> (r: Option<Vec<u8>>)
    ensures
        form_key(body@) matches Some(v) ==> (r matches Some(rv) && rv@ == v),
        form_key(body@) is None ==> r is None,
{
    let n: usize = body.len();
    let key = key_bytes();
    let mut pos: usize = 0;
    assert(body@.subrange(0, n as int) =~= body@);
    while pos < n
        invariant
            pos <= n,
            n == body@.len(),
            key@ == key_name(),
            form_key(body@) == first_value(
                parse_form(body@.subrange(pos as int, n as int)),
                key_name(),
            ),
        decreases n - pos,
    {
        let ghost rem = body@.subrange(pos as int, n as int);
        // find the end of the current segment
        let mut e: usize = pos;
        while e < n && body[e] != AMPERSAND
            invariant
                pos <= e <= n,
                n == body@.len(),
                forall|j: int| pos <= j < e ==> body@[j] != AMPERSAND,
            decreases n - e,
        {
            e = e + 1;
        }
        proof {
            assert forall|j: int| 0 <= j < e - pos implies rem[j] != AMPERSAND by {
                assert(rem[j] == body@[pos + j]);
            }
            if e < n {
                assert(rem[e - pos] == body@[e as int]);
            }
            lemma_find_byte_is(rem, AMPERSAND, e - pos);
        }
        let ghost seg = rem.take(e - pos);
        let ghost rest = if e < n {
            rem.skip(e - pos + 1)
        } else {
            Seq::<u8>::empty()
        };
        proof {
            assert(seg =~= body@.subrange(pos as int, e as int));
            if e < n {
                assert(rest =~= body@.subrange(e as int + 1, n as int));
            }
        }
        if e > pos {
            // split the segment at its first `=`
            let mut q: usize = pos;
            while q < e && body[q] != EQUALS_SIGN
                invariant
                    pos <= q <= e <= n,
                    n == body@.len(),
                    forall|j: int| pos <= j < q ==> body@[j] != EQUALS_SIGN,
                decreases e - q,
            {
                q = q + 1;
            }
            proof {
                assert forall|j: int| 0 <= j < q - pos implies seg[j] != EQUALS_SIGN by {
                    assert(seg[j] == body@[pos + j]);
                }
                if q < e {
                    assert(seg[q - pos] == body@[q as int]);
                }
                lemma_find_byte_is(seg, EQUALS_SIGN, q - pos);
                assert(seg.take(q - pos) =~= body@.subrange(pos as int, q as int));
                if q < e {
                    assert(seg.skip(q - pos + 1) =~= body@.subrange(q as int + 1, e as int));
                }
            }
            let name = decode_range(body, pos, q);
            proof {
                lemma_first_value_step(split_pair(seg), parse_form(rest), key_name());
            }
            if range_eq(&name, 0, name.len(), &key) {
                assert(name@.subrange(0, name@.len() as int) =~= name@);
                assert(split_pair(seg).0 == key_name());
                let value = if q < e {
                    decode_range(body, q + 1, e)
                } else {
                    Vec::new()
                };
                assert(value@ == split_pair(seg).1);
                assert(form_key(body@) == Some(value@));
                return Some(value);
            }
            assert(split_pair(seg).0 != key_name()) by {
                assert(name@.subrange(0, name@.len() as int) =~= name@);
            }
            assert(first_value(parse_form(rem), key_name()) == first_value(
                parse_form(rest),
                key_name(),
            ));
        } else {
            // an empty segment is skipped
            assert(parse_form(rem) == parse_form(rest));
        }
        if e < n {
            pos = e + 1;
        } else {
            pos = n;
            assert(rest =~= body@.subrange(n as int, n as int));
        }
        assert(rest =~= body@.subrange(pos as int, n as int));
    }
    assert(body@.subrange(n as int, n as int) =~= Seq::<u8>::empty());
    None
}

} // verus!


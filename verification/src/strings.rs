//! Character offsets versus UTF-8 byte offsets in a `String`.
//!
//! A `String` stores UTF-8 bytes, while an editor counts characters. This
//! module says in one spec function, [`byte_offset`], which byte position
//! belongs to a character position, proves what the editor needs of it, and
//! gives contracts to the `std` string operations that the editor calls and
//! `vstd` does not cover.

use vstd::prelude::*;
use vstd::std_specs::iter::IteratorSpec;
use vstd::utf8::*;

verus! {

broadcast use vstd::string::group_string_axioms;

/// `n` limited to the length of `chars`.
pub open spec fn clamp_index(chars: Seq<char>, n: nat) -> nat {
    if n < chars.len() {
        n
    } else {
        chars.len()
    }
}

/// The number of bytes that the first `n` characters of `chars` occupy in
/// UTF-8, and the whole encoded length when `n` reaches past the end.
pub open spec fn byte_offset(chars: Seq<char>, n: nat) -> nat {
    encode_utf8(chars.take(clamp_index(chars, n) as int)).len()
}

/// `String::insert` puts the encoding of `ch` at byte position `idx`: the
/// bytes before `idx` and the bytes from `idx` on are kept, in that order,
/// around it. It panics unless `idx` lies on a character boundary, the end of
/// the string included, so callers must show that it does.
pub assume_specification[ String::insert ](s: &mut String, idx: usize, ch: char)
    requires
        is_char_boundary(encode_utf8(old(s)@), idx as int),
    ensures
        encode_utf8(final(s)@) == encode_utf8(old(s)@).take(idx as int) + encode_scalar(ch as u32)
            + encode_utf8(old(s)@).skip(idx as int),
;

/// `String::push` appends `ch` to the end of the string.
pub assume_specification[ String::push ](s: &mut String, ch: char)
    ensures
        final(s)@ == old(s)@.push(ch),
;

/// `char::len_utf8` is the number of bytes of the character's UTF-8 encoding.
pub assume_specification[ char::len_utf8 ](c: char) -> (n: usize)
    ensures
        n == encode_scalar(c as u32).len(),
;

/// Encoding distributes over concatenation.
pub proof fn lemma_encode_concat(a: Seq<char>, b: Seq<char>)
    ensures
        encode_utf8(a + b) == encode_utf8(a) + encode_utf8(b),
    decreases a.len(),
{
    if a.len() > 0 {
        lemma_encode_concat(a.drop_first(), b);
        assert((a + b).drop_first() =~= a.drop_first() + b);
    }
}

/// A single character encodes to its scalar's bytes.
pub proof fn lemma_encode_single(c: char)
    ensures
        encode_utf8(seq![c]) == encode_scalar(c as u32),
{
    assert(encode_utf8(seq![c].drop_first()) =~= Seq::<u8>::empty());
}

/// Two character sequences with the same encoding are the same sequence.
pub proof fn lemma_encode_injective(a: Seq<char>, b: Seq<char>)
    requires
        encode_utf8(a) == encode_utf8(b),
    ensures
        a == b,
{
    encode_utf8_decode_utf8(a);
    encode_utf8_decode_utf8(b);
}

/// Cutting the encoding at the byte offset of character `k` separates the
/// encoding of the first `k` characters from the encoding of the rest.
pub proof fn lemma_split_at_offset(chars: Seq<char>, k: nat)
    requires
        k <= chars.len(),
    ensures
        byte_offset(chars, k) <= encode_utf8(chars).len(),
        encode_utf8(chars).take(byte_offset(chars, k) as int) == encode_utf8(chars.take(k as int)),
        encode_utf8(chars).skip(byte_offset(chars, k) as int) == encode_utf8(chars.skip(k as int)),
{
    let head = chars.take(k as int);
    let tail = chars.skip(k as int);
    assert(chars =~= head + tail);
    lemma_encode_concat(head, tail);
}

/// The byte offset of a character position is a character boundary of the
/// encoded text.
pub proof fn lemma_offset_is_boundary(chars: Seq<char>, n: nat)
    ensures
        is_char_boundary(encode_utf8(chars), byte_offset(chars, n) as int),
    decreases clamp_index(chars, n),
{
    let k = clamp_index(chars, n);
    let bytes = encode_utf8(chars);
    encode_utf8_valid_utf8(chars);
    if k > 0 {
        let rest = chars.drop_first();
        encode_utf8_first_scalar(chars);
        assert(pop_first_scalar(bytes) =~= encode_utf8(rest));
        assert(chars.take(k as int) =~= seq![chars[0]] + rest.take(k - 1));
        lemma_encode_concat(seq![chars[0]], rest.take(k - 1));
        lemma_encode_single(chars[0]);
        assert(byte_offset(chars, n) == encode_scalar(chars[0] as u32).len() + byte_offset(
            rest,
            (k - 1) as nat,
        ));
        lemma_offset_is_boundary(rest, (k - 1) as nat);
    }
}

/// Stepping over character `k` moves the byte offset by that character's
/// width.
pub proof fn lemma_offset_step(chars: Seq<char>, k: nat)
    requires
        k < chars.len(),
    ensures
        byte_offset(chars, k + 1) == byte_offset(chars, k) + encode_scalar(chars[k as int] as u32).len(),
{
    let head = chars.take(k as int);
    assert(chars.take(k as int + 1) =~= head + seq![chars[k as int]]);
    lemma_encode_concat(head, seq![chars[k as int]]);
    lemma_encode_single(chars[k as int]);
}

/// Inserting the bytes of `c` at the byte offset of character `k` inserts `c`
/// as character `k`.
pub proof fn lemma_insert_at_offset(before: Seq<char>, after: Seq<char>, k: nat, c: char)
    requires
        k <= before.len(),
        encode_utf8(after) == encode_utf8(before).take(byte_offset(before, k) as int)
            + encode_scalar(c as u32) + encode_utf8(before).skip(byte_offset(before, k) as int),
    ensures
        after == before.insert(k as int, c),
{
    let head = before.take(k as int);
    let tail = before.skip(k as int);
    lemma_split_at_offset(before, k);
    lemma_encode_single(c);
    lemma_encode_concat(head, seq![c]);
    lemma_encode_concat(head + seq![c], tail);
    assert(before.insert(k as int, c) =~= head + seq![c] + tail);
    lemma_encode_injective(after, before.insert(k as int, c));
}

/// The characters of `s`, in order.
pub fn chars_of(s: &str) -> (v: Vec<char>)
    ensures
        v@ == s@,
{
    let mut v: Vec<char> = Vec::new();
    let mut it = s.chars();
    loop
        invariant
            v@ + it.remaining() == s@,
            it.decrease() is Some,
        ensures
            v@ == s@,
        decreases it.decrease()->0,
    {
        match it.next() {
            Some(c) => {
                v.push(c);
            },
            None => {
                break;
            },
        }
    }
    v
}

/// The string made of the characters of `v`, in order.
pub fn string_of(v: &Vec<char>) -> (s: String)
    ensures
        s@ == v@,
{
    let mut s = String::new();
    let mut i: usize = 0;
    while i < v.len()
        invariant
            i <= v.len(),
            s@ == v@.take(i as int),
        decreases v.len() - i,
    {
        s.push(v[i]);
        i += 1;
    }
    s
}

} // verus!

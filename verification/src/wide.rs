//! Null-terminated wide strings: the UTF-16 form in which window class
//! names and captions are handed to the OS.

use vstd::prelude::*;

verus! {

/// The UTF-16 encoding of one character: a single code unit for a
/// character in the basic multilingual plane, a surrogate pair above it.
pub open spec fn utf16_of_char(c: char) -> Seq<u16> {
    let u = c as int;
    if u < 0x10000 {
        seq![u as u16]
    } else {
        seq![
            (0xD800 + (u - 0x10000) / 0x400) as u16,
            (0xDC00 + (u - 0x10000) % 0x400) as u16,
        ]
    }
}

/// The UTF-16 encoding of a character sequence: the encodings of its
/// characters, in order.
pub open spec fn utf16_of(s: Seq<char>) -> Seq<u16>
    decreases s.len(),
{
    if s.len() == 0 {
        Seq::empty()
    } else {
        utf16_of_char(s[0]) + utf16_of(s.drop_first())
    }
}

/// The encoding distributes over concatenation.
proof fn lemma_utf16_of_concat(a: Seq<char>, b: Seq<char>)
    ensures
        utf16_of(a + b) == utf16_of(a) + utf16_of(b),
    decreases a.len(),
{
    if a.len() == 0 {
        assert(a + b =~= b);
        assert(utf16_of(a) + utf16_of(b) =~= utf16_of(b));
    } else {
        assert((a + b).len() > 0);
        assert((a + b)[0] == a[0]);
        assert((a + b).drop_first() =~= a.drop_first() + b);
        lemma_utf16_of_concat(a.drop_first(), b);
        assert(utf16_of_char(a[0]) + (utf16_of(a.drop_first()) + utf16_of(b)) =~= (utf16_of_char(
            a[0],
        ) + utf16_of(a.drop_first())) + utf16_of(b));
    }
}

/// Extending the encoded prefix by one character appends that
/// character's encoding.
proof fn lemma_utf16_of_take_succ(s: Seq<char>, i: int)
    requires
        0 <= i < s.len(),
    ensures
        utf16_of(s.take(i + 1)) == utf16_of(s.take(i)) + utf16_of_char(s[i]),
{
    let one = seq![s[i]];
    assert(s.take(i + 1) =~= s.take(i) + one);
    lemma_utf16_of_concat(s.take(i), one);
    assert(one.drop_first() =~= Seq::<char>::empty());
    assert(utf16_of(Seq::<char>::empty()) =~= Seq::<u16>::empty());
    assert(utf16_of(one) =~= utf16_of_char(s[i]) + utf16_of(one.drop_first()));
    assert(utf16_of_char(s[i]) + Seq::<u16>::empty() =~= utf16_of_char(s[i]));
}

/// The UTF-16 code units of the string's characters, in order.
fn utf16_units(s: &str) -> (r: Vec<u16>)
    ensures
        r@ == utf16_of(s@),
{
    let n = s.unicode_len();
    let mut r: Vec<u16> = Vec::new();
    let mut i: usize = 0;
    while i < n
        invariant
            i <= n,
            n == s@.len(),
            r@ == utf16_of(s@.take(i as int)),
        decreases n - i,
    {
        let c = s.get_char(i);
        let u: u32 = c as u32;
        if u < 0x10000 {
            r.push(u as u16);
        } else {
            r.push((0xD800 + (u - 0x10000) / 0x400) as u16);
            r.push((0xDC00 + (u - 0x10000) % 0x400) as u16);
        }
        proof {
            lemma_utf16_of_take_succ(s@, i as int);
        }
        i = i + 1;
    }
    proof {
        assert(s@.take(n as int) =~= s@);
    }
    r
}

/// Encodes a string as a null-terminated wide string.
pub fn wide_string(s: &str) -> (r: Vec<u16>)
    ensures
        r@ == utf16_of(s@).push(0u16),
        r@.len() >= 1,
        r@[r@.len() - 1] == 0u16,
{
    let mut units = utf16_units(s);
    units.push(0u16);
    units
}

} // verus!

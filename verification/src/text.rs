//! Text as the layer needs it: strings compared, taken apart into
//! characters, rendered from numbers.
use vstd::prelude::*;
use vstd::string::{StringExecFns, StringSliceAdditionalSpecFns};
use vstd::utf8::{encode_utf8, encode_utf8_decode_utf8};

verus! {

/// The characters of a string, in order.
pub fn chars_of(s: &str) -> (v: Vec<char>)
    ensures
        v@ == s@,
{
    let mut v: Vec<char> = Vec::new();
    for c in it: s.chars()
        invariant
            v@ == it.seq().take(it.index() as int),
            it.seq() == s@,
    {
        v.push(c);
    }
    v
}

/// Two strings with the same UTF-8 encoding are the same string.
pub proof fn lemma_encoding_is_injective(a: Seq<char>, b: Seq<char>)
    requires
        encode_utf8(a) == encode_utf8(b),
    ensures
        a == b,
{
    encode_utf8_decode_utf8(a);
    encode_utf8_decode_utf8(b);
}

/// Whether two byte strings are equal.
pub fn bytes_eq(a: &[u8], b: &[u8]) -> (same: bool)
    ensures
        same == (a@ == b@),
{
    if a.len() != b.len() {
        return false;
    }
    let mut i: usize = 0;
    while i < a.len()
        invariant
            a.len() == b.len(),
            i <= a.len(),
            forall|k: int| 0 <= k < i ==> a@[k] == b@[k],
        decreases a.len() - i,
    {
        if a[i] != b[i] {
            return false;
        }
        i += 1;
    }
    assert(a@ =~= b@);
    true
}

/// Whether two strings are equal.
pub fn str_eq(a: &str, b: &str) -> (same: bool)
    ensures
        same == (a@ == b@),
{
    let same = bytes_eq(a.as_bytes(), b.as_bytes());
    proof {
        if same {
            lemma_encoding_is_injective(a@, b@);
        }
    }
    same
}

/// The character that stands for a digit.
pub open spec fn digit_char(d: int) -> char {
    if d == 0 {
        '0'
    } else if d == 1 {
        '1'
    } else if d == 2 {
        '2'
    } else if d == 3 {
        '3'
    } else if d == 4 {
        '4'
    } else if d == 5 {
        '5'
    } else if d == 6 {
        '6'
    } else if d == 7 {
        '7'
    } else if d == 8 {
        '8'
    } else {
        '9'
    }
}

/// A number in decimal notation, without leading zeros.
pub open spec fn decimal(n: nat) -> Seq<char>
    decreases n,
{
    if n < 10 {
        seq![digit_char(n as int)]
    } else {
        decimal(n / 10).push(digit_char((n % 10) as int))
    }
}

/// The one-character string of a digit.
fn digit(d: u32) -> (t: &'static str)
    requires
        d < 10,
    ensures
        t@ == seq![digit_char(d as int)],
{
    proof {
        reveal_strlit("0");
        reveal_strlit("1");
        reveal_strlit("2");
        reveal_strlit("3");
        reveal_strlit("4");
        reveal_strlit("5");
        reveal_strlit("6");
        reveal_strlit("7");
        reveal_strlit("8");
        reveal_strlit("9");
    }
    let t = if d == 0 {
        "0"
    } else if d == 1 {
        "1"
    } else if d == 2 {
        "2"
    } else if d == 3 {
        "3"
    } else if d == 4 {
        "4"
    } else if d == 5 {
        "5"
    } else if d == 6 {
        "6"
    } else if d == 7 {
        "7"
    } else if d == 8 {
        "8"
    } else {
        "9"
    };
    assert(t@ =~= seq![digit_char(d as int)]);
    t
}

/// Renders a number in decimal notation.
pub fn to_decimal(n: u32) -> (s: String)
    ensures
        s@ == decimal(n as nat),
    decreases n,
{
    if n < 10 {
        String::from_str(digit(n))
    } else {
        let mut s = to_decimal(n / 10);
        s.append(digit(n % 10));
        assert(s@ =~= decimal(n as nat));
        s
    }
}

/// The UTF-8 encoding of each of `names`.
pub open spec fn encodings(names: Seq<Seq<char>>) -> Seq<Seq<u8>> {
    Seq::new(names.len(), |i: int| encode_utf8(names[i]))
}

/// Byte strings put one after the other with `sep` between each two: nothing
/// for no string, nothing before the first and nothing after the last.
pub open spec fn joined(parts: Seq<Seq<u8>>, sep: u8) -> Seq<u8>
    decreases parts.len(),
{
    if parts.len() == 0 {
        seq![]
    } else if parts.len() == 1 {
        parts[0]
    } else {
        joined(parts.drop_last(), sep).push(sep) + parts.last()
    }
}

/// Texts put one after the other with `sep` between each two.
pub open spec fn joined_text(parts: Seq<Seq<char>>, sep: char) -> Seq<char>
    decreases parts.len(),
{
    if parts.len() == 0 {
        seq![]
    } else if parts.len() == 1 {
        parts[0]
    } else {
        joined_text(parts.drop_last(), sep).push(sep) + parts.last()
    }
}

/// A text is encoded piece by piece: the encoding of two texts in a row is
/// the encoding of the first followed by that of the second.
pub proof fn lemma_encoding_of_concat(a: Seq<char>, b: Seq<char>)
    ensures
        encode_utf8(a + b) == encode_utf8(a) + encode_utf8(b),
    decreases a.len(),
{
    if a.len() == 0 {
        assert(a + b =~= b);
        assert(encode_utf8(a) + encode_utf8(b) =~= encode_utf8(b));
    } else {
        assert((a + b).drop_first() =~= a.drop_first() + b);
        assert((a + b)[0] == a[0]);
        lemma_encoding_of_concat(a.drop_first(), b);
        assert(encode_utf8(a + b) =~= encode_utf8(a) + encode_utf8(b));
    }
}

/// The zero character is encoded as the single byte zero.
pub proof fn lemma_encoding_of_nul()
    ensures
        encode_utf8(seq!['\0']) == seq![0u8],
{
    let c = '\0' as u32;
    assert(c & 0x7F == 0) by (bit_vector)
        requires
            c == 0,
    ;
    assert(seq!['\0'].drop_first() =~= Seq::<char>::empty());
    reveal_with_fuel(encode_utf8, 2);
    assert(encode_utf8(seq!['\0']) =~= seq![0u8]);
}

/// Names joined by zero bytes, each in its UTF-8 encoding, are the UTF-8
/// encoding of the names joined by zero characters.
pub proof fn lemma_joined_encoding(parts: Seq<Seq<char>>)
    ensures
        joined(encodings(parts), 0) == encode_utf8(joined_text(parts, '\0')),
    decreases parts.len(),
{
    if parts.len() == 0 {
    } else if parts.len() == 1 {
    } else {
        let front = parts.drop_last();
        lemma_joined_encoding(front);
        assert(encodings(parts).drop_last() =~= encodings(front));
        assert(encodings(parts).last() == encode_utf8(parts.last()));
        let head = joined_text(front, '\0');
        lemma_encoding_of_nul();
        assert(head.push('\0') =~= head + seq!['\0']);
        lemma_encoding_of_concat(head, seq!['\0']);
        lemma_encoding_of_concat(head.push('\0'), parts.last());
        assert(encode_utf8(head).push(0u8) =~= encode_utf8(head) + seq![0u8]);
    }
}

/// The UTF-8 encodings of `parts`, joined by `sep`.
pub fn join_utf8(parts: &[&str], sep: u8) -> (out: Vec<u8>)
    ensures
        out@ == joined(encodings(parts.deep_view()), sep),
{
    let ghost all = encodings(parts.deep_view());
    let mut out: Vec<u8> = Vec::new();
    let mut i: usize = 0;
    while i < parts.len()
        invariant
            i <= parts@.len(),
            all == encodings(parts.deep_view()),
            out@ == joined(all.take(i as int), sep),
        decreases parts@.len() - i,
    {
        let ghost before = out@;
        if i > 0 {
            out.push(sep);
        }
        let bytes = parts[i].as_bytes();
        out.extend_from_slice(bytes);
        proof {
            assert(bytes@ == all[i as int]);
            assert(all.take(i + 1).drop_last() =~= all.take(i as int));
            assert(all.take(i + 1).last() == all[i as int]);
            if i > 0 {
                assert(out@ =~= before.push(sep) + bytes@);
            } else {
                assert(out@ =~= bytes@);
            }
        }
        i += 1;
    }
    assert(all.take(i as int) =~= all);
    out
}

/// The 16-bit signed number with the low 16 bits of `v`: what is left of a
/// coordinate that is cut down to the width the wire has for it.
pub open spec fn low_i16(v: int) -> i16 {
    let low = v % 0x1_0000;
    if low < 0x8000 {
        low as i16
    } else {
        (low - 0x1_0000) as i16
    }
}

/// Cuts a number down to its low 16 bits, read as a signed number.
pub fn to_low_i16(v: u64) -> (r: i16)
    ensures
        r == low_i16(v as int),
{
    let low: u64 = v % 0x1_0000;
    if low < 0x8000 {
        low as i16
    } else {
        (low as i32 - 0x1_0000) as i16
    }
}

/// The 32-bit number with the low 32 bits of `v`.
pub open spec fn low_u32(v: int) -> u32 {
    (v % 0x1_0000_0000) as u32
}

/// Cuts an index down to its low 32 bits.
pub fn to_low_u32(v: usize) -> (r: u32)
    ensures
        r == low_u32(v as int),
        v <= u32::MAX ==> r == v,
{
    let wide: u64 = v as u64;
    (wide % 0x1_0000_0000) as u32
}

} // verus!

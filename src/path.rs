//! Percent-encoding of the identifiers that go into a request path.
use vstd::prelude::*;
use vstd::string::*;
use vstd::utf8::encode_utf8;

verus! {

/// Relies on `String::push`: appends one character.
pub assume_specification[ String::push ](s: &mut String, ch: char)
    ensures
        final(s)@ == old(s)@.push(ch),
;

/// Bytes that stand for themselves in a path segment: ASCII letters, digits and `-._~`.
pub open spec fn unreserved(b: u8) -> bool {
    ||| 0x41 <= b <= 0x5a
    ||| 0x61 <= b <= 0x7a
    ||| 0x30 <= b <= 0x39
    ||| b == 0x2d
    ||| b == 0x2e
    ||| b == 0x5f
    ||| b == 0x7e
}

/// The upper-case hexadecimal digit for `d < 16`.
pub open spec fn hex_digit(d: u8) -> char {
    if d < 10 {
        (0x30 + d) as u8 as char
    } else {
        (0x41 + d - 10) as u8 as char
    }
}

/// The value of a hexadecimal digit, either case.
pub open spec fn hex_value(c: char) -> Option<u8> {
    if '0' <= c <= '9' {
        Some((c as u32 - 0x30) as u8)
    } else if 'A' <= c <= 'F' {
        Some((c as u32 - 0x41 + 10) as u8)
    } else if 'a' <= c <= 'f' {
        Some((c as u32 - 0x61 + 10) as u8)
    } else {
        None
    }
}

/// How one byte is written: itself where unreserved, else `%` and two hex digits.
pub open spec fn escape(b: u8) -> Seq<char> {
    if unreserved(b) {
        seq![b as char]
    } else {
        seq!['%', hex_digit(b / 16), hex_digit(b % 16)]
    }
}

/// The percent-encoding of a byte string.
pub open spec fn encoded(bs: Seq<u8>) -> Seq<char>
    decreases bs.len(),
{
    if bs.len() == 0 {
        Seq::empty()
    } else {
        escape(bs[0]) + encoded(bs.drop_first())
    }
}

/// The bytes that a percent-encoded text stands for; `None` where a `%` is not followed
/// by two hex digits or a character is not ASCII.
pub open spec fn decoded(s: Seq<char>) -> Option<Seq<u8>>
    decreases s.len(),
{
    if s.len() == 0 {
        Some(Seq::empty())
    } else if s[0] == '%' {
        if s.len() >= 3 && hex_value(s[1]) is Some && hex_value(s[2]) is Some {
            let b = (hex_value(s[1])->0 * 16 + hex_value(s[2])->0) as u8;
            prepend(seq![b], decoded(s.subrange(3, s.len() as int)))
        } else {
            None
        }
    } else if (s[0] as u32) < 0x80 {
        prepend(seq![s[0] as u32 as u8], decoded(s.drop_first()))
    } else {
        None
    }
}

pub open spec fn prepend(p: Seq<u8>, o: Option<Seq<u8>>) -> Option<Seq<u8>> {
    match o {
        Some(r) => Some(p + r),
        None => None,
    }
}

proof fn lemma_encoded_push(bs: Seq<u8>, b: u8)
    ensures
        encoded(bs.push(b)) == encoded(bs) + escape(b),
    decreases bs.len(),
{
    if bs.len() == 0 {
        assert(bs.push(b).drop_first() =~= Seq::<u8>::empty());
        assert(encoded(bs.push(b).drop_first()) =~= Seq::<char>::empty());
        assert(encoded(bs.push(b)) =~= escape(b));
    } else {
        assert(bs.push(b).drop_first() =~= bs.drop_first().push(b));
        lemma_encoded_push(bs.drop_first(), b);
        assert(encoded(bs.push(b)) =~= encoded(bs) + escape(b));
    }
}

proof fn lemma_escape_decodes(b: u8, rest: Seq<char>)
    ensures
        decoded(escape(b) + rest) == prepend(seq![b], decoded(rest)),
{
    let s = escape(b) + rest;
    if unreserved(b) {
        assert(s.drop_first() =~= rest);
        assert((b as char) as u32 == b as u32);
    } else {
        assert(s.subrange(3, s.len() as int) =~= rest);
        assert(hex_value(hex_digit(b / 16)) == Some(b / 16));
        assert(hex_value(hex_digit(b % 16)) == Some(b % 16));
    }
}

/// Decoding the percent-encoding of any byte string gives those bytes back: an
/// identifier reaches the server as it was written.
pub proof fn lemma_encoding_round_trip(bs: Seq<u8>)
    ensures
        decoded(encoded(bs)) == Some(bs),
    decreases bs.len(),
{
    if bs.len() > 0 {
        lemma_encoding_round_trip(bs.drop_first());
        lemma_escape_decodes(bs[0], encoded(bs.drop_first()));
        assert(seq![bs[0]] + bs.drop_first() =~= bs);
    } else {
        assert(encoded(bs) =~= Seq::<char>::empty());
    }
}

/// The path segment that stands for the text `s`: the percent-encoding of its UTF-8 bytes.
pub open spec fn seg(s: Seq<char>) -> Seq<char> {
    encoded(encode_utf8(s))
}

/// The percent-encoding of `segment`'s UTF-8 bytes, which holds no `/`, `?` or `#`.
pub fn encode_segment(segment: &str) -> (r: String)
    ensures
        r@ == encoded(segment.spec_bytes()),
{
    let bytes = segment.as_bytes();
    let mut out = String::new();
    let mut i: usize = 0;
    while i < bytes.len()
        invariant
            0 <= i <= bytes@.len(),
            bytes@ == segment.spec_bytes(),
            out@ == encoded(bytes@.subrange(0, i as int)),
        decreases bytes@.len() - i,
    {
        let b = bytes[i];
        proof {
            lemma_encoded_push(bytes@.subrange(0, i as int), b);
            assert(bytes@.subrange(0, i as int).push(b) =~= bytes@.subrange(0, i + 1));
        }
        if is_unreserved(b) {
            out.push(b as char);
        } else {
            out.push('%');
            out.push(hex_char(b / 16));
            out.push(hex_char(b % 16));
        }
        i = i + 1;
    }
    assert(bytes@.subrange(0, bytes@.len() as int) =~= bytes@);
    out
}

fn is_unreserved(b: u8) -> (r: bool)
    ensures
        r == unreserved(b),
{
    (0x41 <= b && b <= 0x5a) || (0x61 <= b && b <= 0x7a) || (0x30 <= b && b <= 0x39) || b == 0x2d
        || b == 0x2e || b == 0x5f || b == 0x7e
}

fn hex_char(d: u8) -> (r: char)
    requires
        d < 16,
    ensures
        r == hex_digit(d),
{
    if d < 10 {
        (0x30 + d) as char
    } else {
        (0x41 + d - 10) as char
    }
}

fn hex_val(c: char) -> (r: Option<u8>)
    ensures
        r == hex_value(c),
{
    if '0' <= c && c <= '9' {
        Some((c as u32 - 0x30) as u8)
    } else if 'A' <= c && c <= 'F' {
        Some((c as u32 - 0x41 + 10) as u8)
    } else if 'a' <= c && c <= 'f' {
        Some((c as u32 - 0x61 + 10) as u8)
    } else {
        None
    }
}

/// The bytes that a percent-encoded text stands for, as the server reads a path segment.
pub fn decode_segment(s: &str) -> (r: Option<Vec<u8>>)
    ensures
        match r {
            Some(v) => decoded(s@) == Some(v@),
            None => decoded(s@) is None,
        },
{
    let n = s.unicode_len();
    let mut out: Vec<u8> = Vec::new();
    let mut i: usize = 0;
    assert(s@.subrange(0, n as int) =~= s@);
    while i < n
        invariant
            0 <= i <= n,
            n == s@.len(),
            decoded(s@) == prepend(out@, decoded(s@.subrange(i as int, n as int))),
        decreases n - i,
    {
        let ghost rest = s@.subrange(i as int, n as int);
        let c = s.get_char(i);
        if c == '%' {
            if n - i > 2 {
                let h = hex_val(s.get_char(i + 1));
                let l = hex_val(s.get_char(i + 2));
                match (h, l) {
                    (Some(h), Some(l)) => {
                        let b = h * 16 + l;
                        proof {
                            assert(rest.subrange(3, rest.len() as int) =~= s@.subrange(
                                i + 3,
                                n as int,
                            ));
                            assert(out@ + (seq![b] + decoded(s@.subrange(i + 3, n as int))->0)
                                =~= out@.push(b) + decoded(s@.subrange(i + 3, n as int))->0);
                        }
                        out.push(b);
                        i = i + 3;
                    },
                    _ => {
                        return None;
                    },
                }
            } else {
                return None;
            }
        } else if (c as u32) < 0x80 {
            let b = c as u32 as u8;
            proof {
                assert(rest.drop_first() =~= s@.subrange(i + 1, n as int));
                assert(out@ + (seq![b] + decoded(s@.subrange(i + 1, n as int))->0)
                    =~= out@.push(b) + decoded(s@.subrange(i + 1, n as int))->0);
            }
            out.push(b);
            i = i + 1;
        } else {
            return None;
        }
    }
    assert(s@.subrange(n as int, n as int) =~= Seq::<char>::empty());
    assert(out@ + Seq::<u8>::empty() =~= out@);
    Some(out)
}

} // verus!

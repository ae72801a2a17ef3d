//! Percent-encoding of a value placed in a URL as one path segment.
use vstd::prelude::*;
use vstd::string::*;

verus! {

/// RFC 3986 unreserved characters: they stand for themselves in a segment.
pub open spec fn unreserved(c: char) -> bool {
    ('A' <= c && c <= 'Z') || ('a' <= c && c <= 'z') || ('0' <= c && c <= '9') || c == '-' || c
        == '.' || c == '_' || c == '~'
}

pub open spec fn hex_digit(d: nat) -> char {
    seq!['0', '1', '2', '3', '4', '5', '6', '7', '8', '9', 'A', 'B', 'C', 'D', 'E', 'F'][d as int]
}

/// One byte written as `%XY`.
pub open spec fn percent(b: nat) -> Seq<char> {
    seq!['%', hex_digit(b / 16), hex_digit(b % 16)]
}

/// The UTF-8 encoding of the code point `n`, as `%XY` triples.
pub open spec fn percent_utf8(n: nat) -> Seq<char> {
    if n < 0x80 {
        percent(n)
    } else if n < 0x800 {
        percent(0xC0 + n / 64) + percent(0x80 + n % 64)
    } else if n < 0x10000 {
        percent(0xE0 + n / 4096) + percent(0x80 + (n / 64) % 64) + percent(0x80 + n % 64)
    } else {
        percent(0xF0 + n / 262144) + percent(0x80 + (n / 4096) % 64) + percent(0x80 + (n / 64) % 64)
            + percent(0x80 + n % 64)
    }
}

pub open spec fn encode_char(c: char) -> Seq<char> {
    if unreserved(c) {
        seq![c]
    } else {
        percent_utf8(c as nat)
    }
}

/// `s` as one path segment: unreserved characters kept, every other
/// character percent-encoded byte by byte, so that no `/`, `?` or `#`
/// survives.
pub open spec fn encoded_segment(s: Seq<char>) -> Seq<char>
    decreases s.len(),
{
    if s.len() == 0 {
        Seq::empty()
    } else {
        encoded_segment(s.drop_last()) + encode_char(s.last())
    }
}

pub(crate) fn hex_str(d: u32) -> (r: &'static str)
    requires
        d < 16,
    ensures
        r@ == seq![hex_digit(d as nat)],
{
    proof {
        reveal_strlit("0");
        reveal_strlit("1");
        reveal_strlit("2");
        reveal_strlit("3");
        reveal_strlit("4");
        reveal_strlit("5");
        reveal_strlit("6");
        reveal_strlit("7");
        reveal_strlit("8");
        reveal_strlit("9");
        reveal_strlit("A");
        reveal_strlit("B");
        reveal_strlit("C");
        reveal_strlit("D");
        reveal_strlit("E");
        reveal_strlit("F");
    }
    let r = if d == 0 { "0" } else if d == 1 { "1" } else if d == 2 { "2" } else if d == 3 { "3" }
    else if d == 4 { "4" } else if d == 5 { "5" } else if d == 6 { "6" } else if d == 7 { "7" }
    else if d == 8 { "8" } else if d == 9 { "9" } else if d == 10 { "A" } else if d == 11 { "B" }
    else if d == 12 { "C" } else if d == 13 { "D" } else if d == 14 { "E" } else { "F" };
    assert(r@ =~= seq![hex_digit(d as nat)]);
    r
}

fn push_percent(out: &mut String, b: u32)
    requires
        b < 256,
    ensures
        final(out)@ == old(out)@ + percent(b as nat),
{
    proof {
        reveal_strlit("%");
    }
    out.append("%");
    out.append(hex_str(b / 16));
    out.append(hex_str(b % 16));
    assert(final(out)@ =~= old(out)@ + percent(b as nat));
}

/// Percent-encodes `s` for use as one URL path segment.
pub fn encode_segment(s: &str) -> (r: String)
    ensures
        r@ == encoded_segment(s@),
{
    let n = s.unicode_len();
    let mut out = String::new();
    let mut i: usize = 0;
    while i < n
        invariant
            n == s@.len(),
            0 <= i <= n,
            out@ == encoded_segment(s@.take(i as int)),
        decreases n - i,
    {
        let c = s.get_char(i);
        let ghost before = out@;
        if ('A' <= c && c <= 'Z') || ('a' <= c && c <= 'z') || ('0' <= c && c <= '9') || c == '-'
            || c == '.' || c == '_' || c == '~' {
            out.append(s.substring_char(i, i + 1));
            assert(s@.subrange(i as int, i + 1) =~= seq![c]);
        } else {
            let v = c as u32;
            if v < 0x80 {
                push_percent(&mut out, v);
            } else if v < 0x800 {
                push_percent(&mut out, 0xC0 + v / 64);
                push_percent(&mut out, 0x80 + v % 64);
            } else if v < 0x10000 {
                push_percent(&mut out, 0xE0 + v / 4096);
                push_percent(&mut out, 0x80 + (v / 64) % 64);
                push_percent(&mut out, 0x80 + v % 64);
            } else {
                assert(v <= 0x10FFFF);
                push_percent(&mut out, 0xF0 + v / 262144);
                push_percent(&mut out, 0x80 + (v / 4096) % 64);
                push_percent(&mut out, 0x80 + (v / 64) % 64);
                push_percent(&mut out, 0x80 + v % 64);
            }
            assert(out@ =~= before + encode_char(c));
        }
        proof {
            let t = s@.take(i + 1);
            assert(t.drop_last() =~= s@.take(i as int));
            assert(t.last() == c);
        }
        i = i + 1;
    }
    assert(s@.take(n as int) =~= s@);
    out
}

} // verus!

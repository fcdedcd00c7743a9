//! Text: decimal numbers, the written forms of a UUID, and the fields between
//! separators.

use vstd::prelude::*;
use vstd::string::{StrSliceExecFns, StringExecFns};

verus! {

/// The character of one decimal digit.
pub open spec fn digit_char(d: nat) -> char {
    (('0' as u32) + d) as char
}

/// The decimal digits of `n`, without leading zeros.
pub open spec fn decimal(n: nat) -> Seq<char>
    decreases n,
{
    if n < 10 {
        seq![digit_char(n)]
    } else {
        decimal(n / 10).push(digit_char(n % 10))
    }
}

/// Appends `n` to `s` in decimal.
pub fn push_decimal(s: &mut String, n: u64)
    ensures
        final(s)@ == old(s)@ + decimal(n as nat),
    decreases n,
{
    if n >= 10 {
        push_decimal(s, n / 10);
    }
    let c: char = (48u8 + (n % 10) as u8) as char;
    s.push(c);
    assert(s@ =~= old(s)@ + decimal(n as nat));
}

/// No decimal number holds a character that is not a digit.
pub proof fn decimal_holds_digits(n: nat, i: int)
    requires
        0 <= i < decimal(n).len(),
    ensures
        '0' <= decimal(n)[i] <= '9',
    decreases n,
{
    if n >= 10 && i < decimal(n).len() - 1 {
        decimal_holds_digits(n / 10, i);
    }
}

/// An address: a host, a colon and a port.
pub open spec fn host_port_text(host: Seq<char>, port: Seq<char>) -> Seq<char> {
    host.push(':') + port
}

/// `host:port`.
pub fn host_port(host: &str, port: u16) -> (addr: String)
    ensures
        addr@ == host_port_text(host@, decimal(port as nat)),
{
    let mut addr = host.to_string();
    addr.push(':');
    push_decimal(&mut addr, port as u64);
    addr
}

/// `a` followed by `b`.
pub fn joined(a: &str, b: &str) -> (text: String)
    ensures
        text@ == a@ + b@,
{
    let mut text = a.to_string();
    text.append(b);
    text
}

/// The first `n` characters of `text`.
pub fn prefix(text: &str, n: usize) -> (start: String)
    requires
        n <= text@.len(),
    ensures
        start@ == text@.take(n as int),
{
    let start = text.substring_char(0, n).to_string();
    assert(start@ =~= text@.take(n as int));
    start
}

/// The pieces of `s` between occurrences of `sep`: one more than there are
/// separators in it, none of them holding a separator.
pub open spec fn fields(s: Seq<char>, sep: char) -> Seq<Seq<char>>
    decreases s.len(),
{
    if s.len() == 0 {
        seq![Seq::empty()]
    } else {
        let init = fields(s.drop_last(), sep);
        if s.last() == sep {
            init.push(Seq::empty())
        } else {
            init.drop_last().push(init.last().push(s.last()))
        }
    }
}

/// Splits `text` at every `sep`.
pub fn split(text: &str, sep: char) -> (parts: Vec<String>)
    ensures
        parts.deep_view() == fields(text@, sep),
{
    let mut parts: Vec<String> = Vec::new();
    let mut current = String::new();
    let ghost mut done: Seq<char> = Seq::empty();
    for c in it: text.chars()
        invariant
            done == it.seq().take(it.index()),
            it.seq() == text@,
            parts.deep_view().push(current@) == fields(done, sep),
    {
        proof {
            done = done.push(c);
            assert(done.drop_last() == text@.take(it.index()));
        }
        if c == sep {
            parts.push(current);
            current = String::new();
        } else {
            current.push(c);
        }
        assert(parts.deep_view().push(current@) =~= fields(done, sep));
    }
    assert(done == text@);
    let ghost before = parts.deep_view().push(current@);
    parts.push(current);
    assert(parts.deep_view() =~= before);
    parts
}

/// Text without a separator is one field.
pub proof fn fields_of_plain(s: Seq<char>, sep: char)
    requires
        !s.contains(sep),
    ensures
        fields(s, sep) == seq![s],
    decreases s.len(),
{
    if s.len() > 0 {
        assert forall|i: int| 0 <= i < s.drop_last().len() implies s.drop_last()[i] != sep by {
            assert(s.contains(s[i]));
        }
        fields_of_plain(s.drop_last(), sep);
        assert(s.contains(s.last()));
        assert(fields(s, sep) =~~= seq![s]);
    } else {
        assert(fields(s, sep) =~~= seq![s]);
    }
}

/// The fields of two texts joined by a separator are the fields of the one
/// followed by those of the other.
pub proof fn fields_of_joined(a: Seq<char>, b: Seq<char>, sep: char)
    ensures
        fields(a.push(sep) + b, sep) == fields(a, sep) + fields(b, sep),
    decreases b.len(),
{
    let whole = a.push(sep) + b;
    if b.len() == 0 {
        assert(whole =~= a.push(sep));
        assert(whole.drop_last() =~= a);
        assert(fields(whole, sep) =~= fields(a, sep) + fields(b, sep));
    } else {
        fields_of_joined(a, b.drop_last(), sep);
        fields_is_not_empty(b.drop_last(), sep);
        assert(whole.drop_last() =~= a.push(sep) + b.drop_last());
        assert(fields(whole, sep) =~= fields(a, sep) + fields(b, sep));
    }
}

/// There is always at least one field.
pub proof fn fields_is_not_empty(s: Seq<char>, sep: char)
    ensures
        fields(s, sep).len() >= 1,
    decreases s.len(),
{
    if s.len() > 0 {
        fields_is_not_empty(s.drop_last(), sep);
    }
}

/// Whether two texts are the same characters.
pub fn same_text(a: &str, b: &str) -> (same: bool)
    ensures
        same == (a@ == b@),
{
    a.to_string() == b.to_string()
}

/// The lower-case hexadecimal digit of a number below 16.
pub open spec fn hex_char(d: u128) -> char {
    if d < 10 {
        (('0' as u32) + d) as char
    } else {
        (('a' as u32) + d - 10) as char
    }
}

/// The `i`-th of the 32 hexadecimal digits of `v`, the most significant first.
pub open spec fn nibble(v: u128, i: int) -> u128 {
    (v >> ((124 - 4 * i) as u128)) & 0xf
}

/// A UUID as 32 hexadecimal digits.
pub open spec fn uuid_simple(v: u128) -> Seq<char> {
    Seq::new(32, |i: int| hex_char(nibble(v, i)))
}

/// A UUID as it is displayed: five groups of digits joined by hyphens.
pub open spec fn uuid_hyphenated(v: u128) -> Seq<char> {
    let h = uuid_simple(v);
    h.subrange(0, 8).push('-') + h.subrange(8, 12).push('-') + h.subrange(12, 16).push('-')
        + h.subrange(16, 20).push('-') + h.subrange(20, 32)
}

/// An ASCII capital as the small letter, any other character as it is.
pub open spec fn lower_char(c: char) -> char {
    if 'A' <= c <= 'Z' {
        ((c as u32) + 32) as char
    } else {
        c
    }
}

/// Whether `s` writes the UUID `v`, in letters of either case: bare digits, the
/// hyphenated form, the hyphenated form in braces, or as a URN.
pub open spec fn writes_uuid(s: Seq<char>, v: u128) -> bool {
    let t = s.map_values(|c: char| lower_char(c));
    ||| t == uuid_simple(v)
    ||| t == uuid_hyphenated(v)
    ||| t == seq!['{'] + uuid_hyphenated(v) + seq!['}']
    ||| t == "urn:uuid:"@ + uuid_hyphenated(v)
}

/// Hexadecimal digits are small: lower-casing leaves them.
proof fn hex_char_is_lower(d: u128)
    requires
        d < 16,
    ensures
        lower_char(hex_char(d)) == hex_char(d),
{
}

proof fn hex_char_is_injective(d: u128, e: u128)
    requires
        d < 16,
        e < 16,
        hex_char(d) == hex_char(e),
    ensures
        d == e,
{
}

proof fn nibble_is_small(v: u128, i: int)
    ensures
        nibble(v, i) < 16,
{
    let x = v >> ((124 - 4 * i) as u128);
    assert(x & 0xf < 16) by (bit_vector);
}

/// A UUID is written by the text it is displayed as.
pub proof fn displayed_uuid_is_written(v: u128)
    ensures
        writes_uuid(uuid_hyphenated(v), v),
{
    let s = uuid_hyphenated(v);
    assert forall|i: int| 0 <= i < 32 implies lower_char(#[trigger] uuid_simple(v)[i])
        == uuid_simple(v)[i] by {
        nibble_is_small(v, i);
        hex_char_is_lower(nibble(v, i));
    }
    assert(s.map_values(|c: char| lower_char(c)) =~= s);
}

proof fn simple_is_injective(v: u128, w: u128)
    requires
        uuid_simple(v) == uuid_simple(w),
    ensures
        v == w,
{
    assert forall|i: int| 0 <= i < 32 implies #[trigger] nibble(v, i) == nibble(w, i) by {
        assert(uuid_simple(v)[i] == hex_char(nibble(v, i)));
        assert(uuid_simple(w)[i] == hex_char(nibble(w, i)));
        nibble_is_small(v, i);
        nibble_is_small(w, i);
        hex_char_is_injective(nibble(v, i), nibble(w, i));
    }
    assert(nibble(v, 0) == nibble(w, 0) && nibble(v, 1) == nibble(w, 1) && nibble(v, 2) == nibble(w, 2)
        && nibble(v, 3) == nibble(w, 3) && nibble(v, 4) == nibble(w, 4) && nibble(v, 5) == nibble(w, 5)
        && nibble(v, 6) == nibble(w, 6) && nibble(v, 7) == nibble(w, 7) && nibble(v, 8) == nibble(w, 8)
        && nibble(v, 9) == nibble(w, 9) && nibble(v, 10) == nibble(w, 10)
        && nibble(v, 11) == nibble(w, 11) && nibble(v, 12) == nibble(w, 12)
        && nibble(v, 13) == nibble(w, 13) && nibble(v, 14) == nibble(w, 14)
        && nibble(v, 15) == nibble(w, 15) && nibble(v, 16) == nibble(w, 16)
        && nibble(v, 17) == nibble(w, 17) && nibble(v, 18) == nibble(w, 18)
        && nibble(v, 19) == nibble(w, 19) && nibble(v, 20) == nibble(w, 20)
        && nibble(v, 21) == nibble(w, 21) && nibble(v, 22) == nibble(w, 22)
        && nibble(v, 23) == nibble(w, 23) && nibble(v, 24) == nibble(w, 24)
        && nibble(v, 25) == nibble(w, 25) && nibble(v, 26) == nibble(w, 26)
        && nibble(v, 27) == nibble(w, 27) && nibble(v, 28) == nibble(w, 28)
        && nibble(v, 29) == nibble(w, 29) && nibble(v, 30) == nibble(w, 30)
        && nibble(v, 31) == nibble(w, 31));
    assert(v == w) by (bit_vector)
        requires
            (v >> 124u128) & 0xf == (w >> 124u128) & 0xf,
            (v >> 120u128) & 0xf == (w >> 120u128) & 0xf,
            (v >> 116u128) & 0xf == (w >> 116u128) & 0xf,
            (v >> 112u128) & 0xf == (w >> 112u128) & 0xf,
            (v >> 108u128) & 0xf == (w >> 108u128) & 0xf,
            (v >> 104u128) & 0xf == (w >> 104u128) & 0xf,
            (v >> 100u128) & 0xf == (w >> 100u128) & 0xf,
            (v >> 96u128) & 0xf == (w >> 96u128) & 0xf,
            (v >> 92u128) & 0xf == (w >> 92u128) & 0xf,
            (v >> 88u128) & 0xf == (w >> 88u128) & 0xf,
            (v >> 84u128) & 0xf == (w >> 84u128) & 0xf,
            (v >> 80u128) & 0xf == (w >> 80u128) & 0xf,
            (v >> 76u128) & 0xf == (w >> 76u128) & 0xf,
            (v >> 72u128) & 0xf == (w >> 72u128) & 0xf,
            (v >> 68u128) & 0xf == (w >> 68u128) & 0xf,
            (v >> 64u128) & 0xf == (w >> 64u128) & 0xf,
            (v >> 60u128) & 0xf == (w >> 60u128) & 0xf,
            (v >> 56u128) & 0xf == (w >> 56u128) & 0xf,
            (v >> 52u128) & 0xf == (w >> 52u128) & 0xf,
            (v >> 48u128) & 0xf == (w >> 48u128) & 0xf,
            (v >> 44u128) & 0xf == (w >> 44u128) & 0xf,
            (v >> 40u128) & 0xf == (w >> 40u128) & 0xf,
            (v >> 36u128) & 0xf == (w >> 36u128) & 0xf,
            (v >> 32u128) & 0xf == (w >> 32u128) & 0xf,
            (v >> 28u128) & 0xf == (w >> 28u128) & 0xf,
            (v >> 24u128) & 0xf == (w >> 24u128) & 0xf,
            (v >> 20u128) & 0xf == (w >> 20u128) & 0xf,
            (v >> 16u128) & 0xf == (w >> 16u128) & 0xf,
            (v >> 12u128) & 0xf == (w >> 12u128) & 0xf,
            (v >> 8u128) & 0xf == (w >> 8u128) & 0xf,
            (v >> 4u128) & 0xf == (w >> 4u128) & 0xf,
            (v >> 0u128) & 0xf == (w >> 0u128) & 0xf,
    ;
}

proof fn hyphenated_is_injective(v: u128, w: u128)
    requires
        uuid_hyphenated(v) == uuid_hyphenated(w),
    ensures
        v == w,
{
    let a = uuid_hyphenated(v);
    let b = uuid_hyphenated(w);
    assert forall|i: int| 0 <= i < 32 implies uuid_simple(v)[i] == uuid_simple(w)[i] by {
        let j = if i < 8 {
            i
        } else if i < 12 {
            i + 1
        } else if i < 16 {
            i + 2
        } else if i < 20 {
            i + 3
        } else {
            i + 4
        };
        assert(a[j] == uuid_simple(v)[i]);
        assert(b[j] == uuid_simple(w)[i]);
    }
    assert(uuid_simple(v) =~= uuid_simple(w));
    simple_is_injective(v, w);
}

/// No text writes two UUIDs.
pub proof fn written_uuid_is_unique(s: Seq<char>, v: u128, w: u128)
    requires
        writes_uuid(s, v),
        writes_uuid(s, w),
    ensures
        v == w,
{
    reveal_strlit("urn:uuid:");
    let t = s.map_values(|c: char| lower_char(c));
    if t.len() == 32 {
        simple_is_injective(v, w);
    } else {
        let from: int = if t.len() == 36 {
            0
        } else if t.len() == 38 {
            1
        } else {
            9
        };
        assert(t.subrange(from, from + 36) =~= uuid_hyphenated(v));
        assert(t.subrange(from, from + 36) =~= uuid_hyphenated(w));
        hyphenated_is_injective(v, w);
    }
}

} // verus!

//! What comes of calls on text.

use vstd::prelude::*;

use crate::text::{
    decimal, fields, fields_is_not_empty, host_port, joined, prefix, push_decimal, same_text, split,
};

verus! {

/// The number that decimal digits spell.
pub open spec fn value(digits: Seq<char>) -> int
    decreases digits.len(),
{
    if digits.len() == 0 {
        0
    } else {
        value(digits.drop_last()) * 10 + (digits.last() as u32 - '0' as u32)
    }
}

/// Whether `text` is `n` in decimal: digits alone, without leading zeros.
pub open spec fn is_number(text: Seq<char>, n: int) -> bool {
    &&& text.len() > 0
    &&& forall|i: int| 0 <= i < text.len() ==> '0' <= #[trigger] text[i] <= '9'
    &&& text.len() > 1 ==> text[0] != '0'
    &&& value(text) == n
}

/// The parts of a text put together again, with `sep` between any two.
pub open spec fn with_separators(parts: Seq<Seq<char>>, sep: char) -> Seq<char>
    decreases parts.len(),
{
    if parts.len() == 0 {
        Seq::empty()
    } else if parts.len() == 1 {
        parts[0]
    } else {
        with_separators(parts.drop_last(), sep).push(sep) + parts.last()
    }
}

/// The decimal form of a number spells it.
pub(crate) proof fn decimal_is_number(n: nat)
    ensures
        is_number(decimal(n), n as int),
    decreases n,
{
    reveal_with_fuel(value, 2);
    if n >= 10 {
        decimal_is_number(n / 10);
        let rest = decimal(n / 10);
        let all = decimal(n);
        assert(all.drop_last() =~= rest);
        assert forall|i: int| 0 <= i < all.len() implies '0' <= #[trigger] all[i] <= '9' by {
            if i < rest.len() {
                assert(all[i] == rest[i]);
            }
        }
        assert(all[0] == rest[0]);
        if rest.len() == 1 {
            assert(n < 100) by {
                if n / 10 >= 10 {
                    decimal_is_number(n / 100);
                    assert(n / 10 / 10 == n / 100);
                }
            }
            assert(rest[0] != '0');
        }
    } else {
        assert(decimal(n).drop_last() =~= Seq::empty());
    }
}

/// The fields of a text hold no separator and make up the text.
pub(crate) proof fn fields_make_up_text(s: Seq<char>, sep: char)
    ensures
        with_separators(fields(s, sep), sep) == s,
        forall|i: int| 0 <= i < fields(s, sep).len() ==> !(#[trigger] fields(s, sep)[i]).contains(sep),
    decreases s.len(),
{
    let all = fields(s, sep);
    if s.len() == 0 {
        assert(all =~= seq![Seq::<char>::empty()]);
        assert(with_separators(all, sep) =~= s);
    } else {
        let init = fields(s.drop_last(), sep);
        fields_make_up_text(s.drop_last(), sep);
        fields_is_not_empty(s.drop_last(), sep);
        if s.last() == sep {
            assert(all.drop_last() =~= init);
            assert(with_separators(all, sep) =~= s);
        } else {
            assert(all.drop_last() =~= init.drop_last());
            let before = with_separators(init.drop_last(), sep);
            let last = init.last().push(s.last());
            if init.len() == 1 {
                assert(with_separators(init, sep) == init.last());
                assert(with_separators(all, sep) == last);
            } else {
                assert(with_separators(init, sep) == before.push(sep) + init.last());
                assert(with_separators(all, sep) == before.push(sep) + last);
                assert(before.push(sep) + last =~= (before.push(sep) + init.last()).push(s.last()));
            }
            assert(with_separators(all, sep) == s.drop_last().push(s.last()));
            assert(s.drop_last().push(s.last()) =~= s);
            assert forall|i: int| 0 <= i < all.len() implies !(#[trigger] all[i]).contains(sep) by {
                if i < init.len() - 1 {
                    assert(all[i] == init[i]);
                } else {
                    let last = init.last();
                    assert(!init[init.len() - 1].contains(sep));
                    assert(all[i] == last.push(s.last()));
                    assert forall|k: int| 0 <= k < all[i].len() implies all[i][k] != sep by {
                        if k < last.len() {
                            assert(last.contains(last[k]));
                        }
                    }
                }
            }
        }
    }
}

/// A number is appended in decimal, to a text that stays as it is.
pub proof fn law_push_decimal_appends_the_number(s: &mut String, n: u64)
    requires
        call_ensures(push_decimal, (s, n), ()),
    ensures
        final(s)@.len() > old(s)@.len(),
        final(s)@.take(old(s)@.len() as int) == old(s)@,
        is_number(final(s)@.skip(old(s)@.len() as int), n as int),
{
    decimal_is_number(n as nat);
    assert(final(s)@.take(old(s)@.len() as int) =~= old(s)@);
    assert(final(s)@.skip(old(s)@.len() as int) =~= decimal(n as nat));
}

/// An address is the host, a colon, and the port in decimal.
pub proof fn law_host_port_holds_both(host: &str, port: u16, addr: String)
    requires
        call_ensures(host_port, (host, port), addr),
    ensures
        addr@.len() > host@.len() + 1,
        addr@.take(host@.len() as int) == host@,
        addr@[host@.len() as int] == ':',
        is_number(addr@.skip((host@.len() + 1) as int), port as int),
{
    decimal_is_number(port as nat);
    assert(addr@.take(host@.len() as int) =~= host@);
    assert(addr@.skip((host@.len() + 1) as int) =~= decimal(port as nat));
}

/// Joining keeps both texts whole, one after the other.
pub proof fn law_joined_holds_both(a: &str, b: &str, text: String)
    requires
        call_ensures(joined, (a, b), text),
    ensures
        text@.len() == a@.len() + b@.len(),
        text@.take(a@.len() as int) == a@,
        text@.skip(a@.len() as int) == b@,
{
    assert(text@.take(a@.len() as int) =~= a@);
    assert(text@.skip(a@.len() as int) =~= b@);
}

/// A prefix has the length asked for, and what follows it completes the text.
pub proof fn law_prefix_starts_the_text(text: &str, n: usize, start: String)
    requires
        n <= text@.len(),
        call_ensures(prefix, (text, n), start),
    ensures
        start@.len() == n,
        start@ + text@.skip(n as int) == text@,
{
    assert(start@ + text@.skip(n as int) =~= text@);
}

/// Texts are the same exactly if they have the same characters in the same places.
pub proof fn law_same_text_compares_every_character(a: &str, b: &str, same: bool)
    requires
        call_ensures(same_text, (a, b), same),
    ensures
        same <==> a@.len() == b@.len() && forall|i: int| 0 <= i < a@.len() ==> a@[i] == b@[i],
{
    if a@.len() == b@.len() && forall|i: int| 0 <= i < a@.len() ==> a@[i] == b@[i] {
        assert(a@ =~= b@);
    }
}

/// Splitting loses nothing: the parts, none of which holds the separator, make up the
/// text when they are put together with separators.
pub proof fn law_split_loses_nothing(text: &str, sep: char, parts: Vec<String>)
    requires
        call_ensures(split, (text, sep), parts),
    ensures
        parts.len() >= 1,
        with_separators(parts.deep_view(), sep) == text@,
        forall|i: int| 0 <= i < parts.len() ==> !(#[trigger] parts[i])@.contains(sep),
{
    fields_make_up_text(text@, sep);
    fields_is_not_empty(text@, sep);
    assert(parts.len() == parts.deep_view().len());
    assert forall|i: int| 0 <= i < parts.len() implies !(#[trigger] parts[i])@.contains(sep) by {
        assert(parts.deep_view()[i] == parts[i]@);
    }
}

} // verus!

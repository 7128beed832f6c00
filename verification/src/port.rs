//! Resolution of the listening port from the optional `PORT` value.
//!
//! A value that is a plain decimal numeral in the range `1..=65535` selects
//! that port; an absent or malformed value falls back to the default, 8080.
//! Malformed values are never an error.

use vstd::prelude::*;

verus! {

/// The port used when no valid one is configured.
pub const DEFAULT_PORT: u16 = 8080;

/// A decimal digit.
pub open spec fn is_digit(c: char) -> bool {
    '0' as int <= c as int && c as int <= '9' as int
}

/// The value of a decimal digit.
pub open spec fn digit_value(c: char) -> int {
    c as int - '0' as int
}

/// Every character of `s` is a decimal digit.
pub open spec fn all_digits(s: Seq<char>) -> bool {
    forall|i: int| 0 <= i < s.len() ==> is_digit(s[i])
}

/// The number a sequence of decimal digits denotes, most significant first.
pub open spec fn digits_value(s: Seq<char>) -> int
    decreases s.len(),
{
    if s.len() == 0 {
        0
    } else {
        digits_value(s.drop_last()) * 10 + digit_value(s.last())
    }
}

/// A string that selects a port: a nonempty run of digits denoting a
/// number in the valid TCP port range.
pub open spec fn parses_as_port(s: Seq<char>) -> bool {
    s.len() > 0 && all_digits(s) && 1 <= digits_value(s) <= 65535
}

/// The port a configured string resolves to.
pub open spec fn spec_port_of(s: Seq<char>) -> int {
    if parses_as_port(s) {
        digits_value(s)
    } else {
        DEFAULT_PORT as int
    }
}

/// Parse a configured port value, falling back to the default on anything
/// malformed or out of range.
pub fn parse_port(s: &str) -> (p: u16)
    ensures
        p as int == spec_port_of(s@),
{
    let n = s.unicode_len();
    if n == 0 {
        return DEFAULT_PORT;
    }
    let mut i: usize = 0;
    let mut val: u32 = 0;
    let mut too_big: bool = false;
    while i < n
        invariant
            n == s@.len(),
            0 <= i <= n,
            forall|j: int| 0 <= j < i ==> is_digit(s@[j]),
            !too_big ==> val as int == digits_value(s@.take(i as int)) && val <= 65535,
            too_big ==> digits_value(s@.take(i as int)) > 65535,
        decreases n - i,
    {
        let c = s.get_char(i);
        let cv = c as u32;
        if cv < 48 || cv > 57 {
            proof {
                assert(!is_digit(s@[i as int]));
            }
            return DEFAULT_PORT;
        }
        let d = cv - 48;
        proof {
            assert(s@.take(i as int + 1).drop_last() =~= s@.take(i as int));
            assert(s@.take(i as int + 1).last() == s@[i as int]);
        }
        if !too_big {
            let next = val * 10 + d;
            if next > 65535 {
                too_big = true;
            } else {
                val = next;
            }
        }
        i = i + 1;
    }
    proof {
        assert(s@.take(n as int) =~= s@);
    }
    if too_big || val == 0 {
        DEFAULT_PORT
    } else {
        val as u16
    }
}

/// The one-character string for a decimal digit.
fn digit_str(d: u16) -> (r: &'static str)
    requires
        d < 10,
    ensures
        r@.len() == 1,
        is_digit(r@[0]),
        digit_value(r@[0]) == d as int,
{
    proof {
        reveal_strlit("0");
        reveal_strlit("1");
        reveal_strlit("2");
        reveal_strlit("3");
        reveal_strlit("4");
        reveal_strlit("5");
        reveal_strlit("6");
        reveal_strlit("7");
        reveal_strlit("8");
        reveal_strlit("9");
    }
    match d {
        0 => "0",
        1 => "1",
        2 => "2",
        3 => "3",
        4 => "4",
        5 => "5",
        6 => "6",
        7 => "7",
        8 => "8",
        _ => "9",
    }
}

/// Append one decimal digit to a numeral being built.
fn push_digit(s: &mut String, d: u16)
    requires
        d < 10,
    ensures
        final(s)@.len() == old(s)@.len() + 1,
        digits_value(final(s)@) == digits_value(old(s)@) * 10 + d as int,
        all_digits(old(s)@) ==> all_digits(final(s)@),
        old(s)@.len() > 0 ==> final(s)@[0] == old(s)@[0],
        old(s)@.len() == 0 ==> digit_value(final(s)@[0]) == d as int,
{
    let ds = digit_str(d);
    let ghost prev = s@;
    s.append(ds);
    proof {
        assert(s@.drop_last() =~= prev);
        assert(s@.last() == ds@[0]);
        if all_digits(prev) {
            assert forall|i: int| 0 <= i < s@.len() implies is_digit(s@[i]) by {
                if i < prev.len() as int {
                    assert(s@[i] == prev[i]);
                } else {
                    assert(s@[i] == ds@[0]);
                }
            }
        }
    }
}

/// Write a port number as its decimal numeral, without leading zeros.
pub fn format_port(port: u16) -> (r: String)
    ensures
        r@.len() >= 1,
        all_digits(r@),
        digits_value(r@) == port as int,
        r@[0] == '0' ==> port == 0,
{
    let d0 = port % 10;
    let p1 = port / 10;
    let d1 = p1 % 10;
    let p2 = p1 / 10;
    let d2 = p2 % 10;
    let p3 = p2 / 10;
    let d3 = p3 % 10;
    let d4 = p3 / 10;
    let mut s = String::new();
    proof {
        assert(digits_value(s@) == 0);
    }
    if d4 > 0 {
        push_digit(&mut s, d4);
    }
    proof {
        assert(digits_value(s@) == d4 as int);
        assert(s@.len() > 0 ==> digit_value(s@[0]) > 0);
    }
    if p3 > 0 {
        push_digit(&mut s, d3);
    }
    proof {
        assert(digits_value(s@) == p3 as int);
        assert(s@.len() > 0 ==> digit_value(s@[0]) > 0);
    }
    if p2 > 0 {
        push_digit(&mut s, d2);
    }
    proof {
        assert(digits_value(s@) == p2 as int);
        assert(s@.len() > 0 ==> digit_value(s@[0]) > 0);
    }
    if p1 > 0 {
        push_digit(&mut s, d1);
    }
    proof {
        assert(digits_value(s@) == p1 as int);
        assert(s@.len() > 0 ==> digit_value(s@[0]) > 0);
    }
    push_digit(&mut s, d0);
    s
}

/// The address the listener is bound to: the wildcard host, a colon, and
/// the port's decimal numeral.
pub fn bind_addr(port: u16) -> (r: String)
    ensures
        r@.len() > 8,
        r@.subrange(0, 8) == "0.0.0.0:"@,
        all_digits(r@.skip(8)),
        digits_value(r@.skip(8)) == port as int,
        r@[8] == '0' ==> port == 0,
{
    proof {
        reveal_strlit("0.0.0.0:");
    }
    let mut s = String::from_str("0.0.0.0:");
    let digits = format_port(port);
    s.append(digits.as_str());
    proof {
        assert(s@.subrange(0, 8) =~= "0.0.0.0:"@);
        assert(s@.skip(8) =~= digits@);
    }
    s
}

/// A port that was formatted as its numeral resolves back to itself:
/// writing and then reading the configuration loses nothing.
pub proof fn lemma_format_parse_round_trip(port: u16, s: Seq<char>)
    requires
        1 <= port,
        s.len() >= 1,
        all_digits(s),
        digits_value(s) == port as int,
    ensures
        spec_port_of(s) == port as int,
{
}

/// Resolve the listening port: an absent value, like a malformed one,
/// falls back to the default.
pub fn resolve_port(configured: Option<&str>) -> (p: u16)
    ensures
        match configured {
            Option::None => p == DEFAULT_PORT,
            Option::Some(s) => p as int == spec_port_of(s@),
        },
{
    match configured {
        Option::None => DEFAULT_PORT,
        Option::Some(s) => parse_port(s),
    }
}

} // verus!

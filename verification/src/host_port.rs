//! Addresses written as `host:port`.

use crate::error::{ErrorKind, NetError};
use vstd::prelude::*;

verus! {

pub open spec fn is_digit(c: char) -> bool {
    '0' <= c <= '9'
}

/// The number that a run of decimal digits stands for.
pub open spec fn decimal(digits: Seq<char>) -> nat
    decreases digits.len(),
{
    if digits.len() == 0 {
        0
    } else {
        decimal(digits.drop_last()) * 10 + (digits.last() as nat - '0' as nat) as nat
    }
}

/// The digits of a number that may have a plus sign before it.
pub open spec fn unsigned(text: Seq<char>) -> Seq<char> {
    if text.len() > 0 && text[0] == '+' {
        text.drop_first()
    } else {
        text
    }
}

/// The port that a text stands for: an optional plus sign, then decimal digits,
/// at least one, whose value is a possible port.
pub open spec fn port_of(text: Seq<char>) -> Option<u16> {
    let digits = unsigned(text);
    if digits.len() > 0 && (forall|i: int| 0 <= i < digits.len() ==> is_digit(#[trigger] digits[i]))
        && decimal(digits) <= u16::MAX {
        Some(decimal(digits) as u16)
    } else {
        None
    }
}

proof fn lemma_decimal_grows(digits: Seq<char>, n: int)
    requires
        0 <= n <= digits.len(),
    ensures
        decimal(digits.take(n)) <= decimal(digits),
    decreases digits.len(),
{
    if n < digits.len() {
        lemma_decimal_grows(digits.drop_last(), n);
        assert(digits.drop_last().take(n) =~= digits.take(n));
    } else {
        assert(digits.take(n) =~= digits);
    }
}

/// Reads a port number.
pub fn parse_port(text: &str) -> (port: Option<u16>)
    ensures
        port == port_of(text@),
{
    let len: usize = text.unicode_len();
    let start: usize = if len > 0 && text.get_char(0) == '+' {
        1
    } else {
        0
    };
    if start == len {
        return None;
    }
    let ghost digits = unsigned(text@);
    assert(digits =~= text@.skip(start as int));
    let mut value: u32 = 0;
    let mut i: usize = start;
    assert(digits.take(0) =~= Seq::empty());
    while i < len
        invariant
            start <= i <= len,
            len == text@.len(),
            digits == unsigned(text@),
            digits == text@.skip(start as int),
            value == decimal(digits.take(i - start)),
            value <= u16::MAX,
            forall|j: int| 0 <= j < i - start ==> is_digit(#[trigger] digits[j]),
        decreases len - i,
    {
        let c: char = text.get_char(i);
        assert(c == digits[i - start]);
        if c < '0' || c > '9' {
            assert(!is_digit(digits[i - start]));
            return None;
        }
        proof {
            assert(digits.take(i + 1 - start).drop_last() =~= digits.take(i - start));
            assert(digits.take(i + 1 - start).last() == c);
            lemma_decimal_grows(digits, i + 1 - start);
        }
        value = value * 10 + (c as u32 - '0' as u32);
        if value > u16::MAX as u32 {
            return None;
        }
        i = i + 1;
    }
    assert(digits.take(len - start) =~= digits);
    Some(value as u16)
}

/// Where the last colon of a text is.
pub open spec fn last_colon(text: Seq<char>) -> Option<int>
    decreases text.len(),
{
    if text.len() == 0 {
        None
    } else if text.last() == ':' {
        Some(text.len() - 1)
    } else {
        last_colon(text.drop_last())
    }
}

/// What stands before and what stands behind the last colon of a text.
pub open spec fn halves(text: Seq<char>) -> Option<(Seq<char>, Seq<char>)> {
    match last_colon(text) {
        Some(at) => Some((text.take(at), text.skip(at + 1))),
        None => None,
    }
}

/// Splits a text at its last colon.
pub fn rsplit_colon<'a>(text: &'a str) -> (parts: Option<(&'a str, &'a str)>)
    ensures
        match parts {
            Some((host, port)) => halves(text@) == Some((host@, port@)),
            None => halves(text@) is None,
        },
        match parts {
            Some((host, port)) => text@ == host@ + seq![':'] + port@ && !port@.contains(':'),
            None => !text@.contains(':'),
        },
{
    let len: usize = text.unicode_len();
    let mut i: usize = len;
    assert(text@.take(len as int) =~= text@);
    while i > 0
        invariant
            i <= len,
            len == text@.len(),
            last_colon(text@.take(i as int)) == last_colon(text@),
        decreases i,
    {
        assert(text@.take(i as int).drop_last() =~= text@.take(i - 1));
        i = i - 1;
        if text.get_char(i) == ':' {
            let host = text.substring_char(0, i);
            let port = text.substring_char(i + 1, len);
            proof {
                parts_are_split_at_the_last_colon(text@);
            }
            return Some((host, port));
        }
    }
    proof {
        parts_are_split_at_the_last_colon(text@);
    }
    None
}

/// Splits `host:port` into its two parts.
pub fn get_socket_addrs_inner<'a>(text: &'a str) -> (parts: Result<(&'a str, u16), NetError>)
    ensures
        match halves(text@) {
            None => parts matches Err(e) && e.says(
                ErrorKind::InvalidInput,
                "invalid socket address"@,
            ),
            Some((host, digits)) => match port_of(digits) {
                None => parts matches Err(e) && e.says(
                    ErrorKind::InvalidInput,
                    "invalid port value"@,
                ),
                Some(port) => parts matches Ok(p) && p.0@ == host && p.1 == port,
            },
        },
        parts matches Ok(p) ==> exists|digits: Seq<char>|
            #![trigger port_of(digits)]
            text@ == p.0@ + seq![':'] + digits && !digits.contains(':') && port_of(digits) == Some(
                p.1,
            ),
{
    match rsplit_colon(text) {
        None => Err(NetError::new(ErrorKind::InvalidInput, "invalid socket address")),
        Some((host, digits)) => match parse_port(digits) {
            None => Err(NetError::new(ErrorKind::InvalidInput, "invalid port value")),
            Some(port) => Ok((host, port)),
        },
    }
}

proof fn lemma_last_colon(host: Seq<char>, port: Seq<char>)
    requires
        !port.contains(':'),
    ensures
        last_colon(host + seq![':'] + port) == Some(host.len() as int),
    decreases port.len(),
{
    let text = host + seq![':'] + port;
    if port.len() == 0 {
        assert(text.last() == ':');
    } else {
        assert(port.contains(port.last()));
        assert forall|c: char| port.drop_last().contains(c) implies port.contains(c) by {
            let i = choose|i: int| 0 <= i < port.drop_last().len() && port.drop_last()[i] == c;
            assert(port[i] == c);
        }
        lemma_last_colon(host, port.drop_last());
        assert(text.drop_last() =~= host + seq![':'] + port.drop_last());
    }
}

/// A host and what follows it, joined by a colon, are split again at that colon,
/// whatever colons the host has.
pub proof fn text_splits_at_its_last_colon(host: Seq<char>, port: Seq<char>)
    requires
        !port.contains(':'),
    ensures
        halves(host + seq![':'] + port) == Some((host, port)),
{
    let text = host + seq![':'] + port;
    lemma_last_colon(host, port);
    assert(text.take(host.len() as int) =~= host);
    assert(text.skip(host.len() as int + 1) =~= port);
}

/// The decimal digits of a number, without leading zeros.
pub open spec fn decimal_text(n: nat) -> Seq<char>
    decreases n,
{
    let last = ('0' as nat + n % 10) as char;
    if n < 10 {
        seq![last]
    } else {
        decimal_text(n / 10).push(last)
    }
}

proof fn lemma_decimal_text(n: nat)
    ensures
        decimal_text(n).len() > 0,
        forall|i: int| 0 <= i < decimal_text(n).len() ==> is_digit(#[trigger] decimal_text(n)[i]),
        decimal(decimal_text(n)) == n,
    decreases n,
{
    reveal_with_fuel(decimal, 2);
    let last = ('0' as nat + n % 10) as char;
    if n >= 10 {
        lemma_decimal_text(n / 10);
        assert(decimal_text(n).drop_last() =~= decimal_text(n / 10));
    } else {
        assert(decimal_text(n).drop_last() =~= Seq::empty());
    }
    assert(decimal_text(n).last() == last);
}

/// Any host, a colon and a port in decimal split into that host and that port.
pub proof fn host_and_port_read_back(host: Seq<char>, port: u16)
    ensures
        halves(host + seq![':'] + decimal_text(port as nat)) == Some(
            (host, decimal_text(port as nat)),
        ),
        port_of(decimal_text(port as nat)) == Some(port),
{
    let digits = decimal_text(port as nat);
    lemma_decimal_text(port as nat);
    assert(is_digit(digits[0]));
    assert(unsigned(digits) == digits);
    if digits.contains(':') {
        let i = choose|i: int| 0 <= i < digits.len() && digits[i] == ':';
        assert(is_digit(digits[i]));
    }
    text_splits_at_its_last_colon(host, digits);
}

proof fn lemma_halves(text: Seq<char>)
    ensures
        match last_colon(text) {
            Some(at) => {
                &&& 0 <= at < text.len()
                &&& text[at] == ':'
                &&& forall|i: int| at < i < text.len() ==> #[trigger] text[i] != ':'
            },
            None => forall|i: int| 0 <= i < text.len() ==> #[trigger] text[i] != ':',
        },
    decreases text.len(),
{
    if text.len() > 0 && text.last() != ':' {
        lemma_halves(text.drop_last());
        assert forall|i: int| 0 <= i < text.len() - 1 implies text[i] == text.drop_last()[i] by {}
    }
}

/// Every text is split at its last colon and nowhere else: the parts and that
/// colon make up the text, no colon is in the second part, and a text is not split
/// where it has no colon.
pub proof fn parts_are_split_at_the_last_colon(text: Seq<char>)
    ensures
        match halves(text) {
            Some((host, port)) => text == host + seq![':'] + port && !port.contains(':'),
            None => !text.contains(':'),
        },
{
    lemma_halves(text);
    if let Some(at) = last_colon(text) {
        assert(text =~= text.take(at) + seq![':'] + text.skip(at + 1));
        let port = text.skip(at + 1);
        if port.contains(':') {
            let i = choose|i: int| 0 <= i < port.len() && port[i] == ':';
            assert(text[at + 1 + i] == ':');
        }
    }
}

proof fn lemma_decimal_is_a_fold(digits: Seq<char>)
    requires
        forall|i: int| 0 <= i < digits.len() ==> '0' <= #[trigger] digits[i] <= '9',
    ensures
        decimal(digits) == digits.fold_left(
            0int,
            |value: int, c: char| value * 10 + (c as int - '0' as int),
        ),
    decreases digits.len(),
{
    if digits.len() > 0 {
        assert forall|i: int| 0 <= i < digits.len() - 1 implies '0' <= #[trigger] digits.drop_last()[i]
            <= '9' by {
            assert(digits.drop_last()[i] == digits[i]);
        }
        assert('0' <= digits[digits.len() - 1] <= '9');
        lemma_decimal_is_a_fold(digits.drop_last());
    }
}

/// A text is a port where, behind one plus sign or none, it has decimal digits and
/// nothing else, at least one and as many as one likes, whose value is at most
/// 65535; that value is the port.
pub proof fn a_port_is_a_decimal_number(text: Seq<char>, digits: Seq<char>)
    requires
        text == seq!['+'] + digits || text == digits && !(text.len() > 0 && text[0] == '+'),
    ensures
        port_of(text) is Some <==> digits.len() > 0 && (forall|i: int|
            0 <= i < digits.len() ==> '0' <= #[trigger] digits[i] <= '9') && digits.fold_left(
            0int,
            |value: int, c: char| value * 10 + (c as int - '0' as int),
        ) <= 65535,
        port_of(text) matches Some(port) ==> port == digits.fold_left(
            0int,
            |value: int, c: char| value * 10 + (c as int - '0' as int),
        ),
{
    assert(unsigned(text) =~= digits);
    if forall|i: int| 0 <= i < digits.len() ==> '0' <= #[trigger] digits[i] <= '9' {
        lemma_decimal_is_a_fold(digits);
        assert forall|i: int| 0 <= i < digits.len() implies is_digit(#[trigger] digits[i]) by {
            assert('0' <= digits[i] <= '9');
        }
    } else {
        let i = choose|i: int| 0 <= i < digits.len() && !('0' <= #[trigger] digits[i] <= '9');
        assert(!is_digit(digits[i]));
    }
}

} // verus!

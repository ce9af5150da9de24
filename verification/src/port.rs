//! The listening port: parsing a port number the way `u16::from_str` does,
//! rendering one in decimal, and the address the server binds.

use vstd::prelude::*;

verus! {

/// A decimal digit character.
pub open spec fn is_digit(c: char) -> bool {
    '0' <= c && c <= '9'
}

/// The numeric value of a digit character.
pub open spec fn digit_value(c: char) -> nat {
    (c as int - '0' as int) as nat
}

/// The character of a digit value below ten.
pub open spec fn digit_char(d: nat) -> char {
    (d + '0' as int) as char
}

/// Every character of `s` is a decimal digit.
pub open spec fn all_digits(s: Seq<char>) -> bool {
    forall|i: int| 0 <= i < s.len() ==> is_digit(#[trigger] s[i])
}

/// The value of a string of decimal digits, most significant first.
pub open spec fn digits_value(s: Seq<char>) -> nat
    decreases s.len(),
{
    if s.len() == 0 {
        0
    } else {
        digits_value(s.drop_last()) * 10 + digit_value(s.last())
    }
}

/// `s` without one leading `+`, the only sign an unsigned number may carry.
pub open spec fn unsigned_body(s: Seq<char>) -> Seq<char> {
    if s.len() > 0 && s[0] == '+' {
        s.drop_first()
    } else {
        s
    }
}

/// What `u16::from_str` gives: an optional `+`, then one or more decimal
/// digits whose value fits in 16 bits (leading zeros allowed).
pub open spec fn spec_parse_u16(s: Seq<char>) -> Option<u16> {
    let body = unsigned_body(s);
    if body.len() > 0 && all_digits(body) && digits_value(body) <= u16::MAX {
        Some(digits_value(body) as u16)
    } else {
        None
    }
}

/// The decimal rendering of `n`, without leading zeros.
pub open spec fn decimal(n: nat) -> Seq<char>
    decreases n,
{
    if n < 10 {
        seq![digit_char(n)]
    } else {
        decimal(n / 10).push(digit_char(n % 10))
    }
}

/// The port the server listens on when none is configured.
pub const DEFAULT_PORT: u16 = 7681;

/// The port chosen from the configured value: the configured text when it
/// parses as a port number, else the default.
pub open spec fn spec_listen_port(configured: Option<Seq<char>>) -> u16 {
    match configured {
        Some(text) => match spec_parse_u16(text) {
            Some(p) => p,
            None => DEFAULT_PORT,
        },
        None => DEFAULT_PORT,
    }
}

proof fn lemma_digits_value_prefix(s: Seq<char>, k: int)
    requires
        all_digits(s),
        0 <= k <= s.len(),
    ensures
        digits_value(s.take(k)) <= digits_value(s),
    decreases s.len(),
{
    if k < s.len() {
        let t = s.drop_last();
        assert(t.take(k) =~= s.take(k));
        lemma_digits_value_prefix(t, k);
    } else {
        assert(s.take(k) =~= s);
    }
}

proof fn lemma_decimal(n: nat)
    ensures
        decimal(n).len() >= 1,
        all_digits(decimal(n)),
        digits_value(decimal(n)) == n,
        decimal(n)[0] != '+',
    decreases n,
{
    if n < 10 {
        assert(decimal(n).drop_last() =~= Seq::<char>::empty());
        assert(digits_value(decimal(n).drop_last()) == 0);
    } else {
        lemma_decimal(n / 10);
        let d = decimal(n);
        assert(d.drop_last() =~= decimal(n / 10));
        vstd::arithmetic::div_mod::lemma_fundamental_div_mod(n as int, 10);
        assert(digit_value(digit_char(n % 10)) == n % 10);
    }
}

/// Rendering a port in decimal and parsing it back gives the same port.
pub proof fn lemma_port_roundtrip(p: u16)
    ensures
        spec_parse_u16(decimal(p as nat)) == Some(p),
{
    lemma_decimal(p as nat);
}

/// Parses a port number as `u16::from_str` does.
pub fn parse_u16(s: &str) -> (r: Option<u16>)
    ensures
        r == spec_parse_u16(s@),
{
    let len = s.unicode_len();
    let mut start: usize = 0;
    if len > 0 && s.get_char(0) == '+' {
        start = 1;
    }
    let ghost body = unsigned_body(s@);
    assert(body =~= s@.subrange(start as int, len as int));
    if start == len {
        return None;
    }
    let mut i: usize = start;
    let mut acc: u32 = 0;
    while i < len
        invariant
            start <= i <= len,
            len == s@.len(),
            start < len,
            body == unsigned_body(s@),
            body =~= s@.subrange(start as int, len as int),
            all_digits(body.take(i - start)),
            acc == digits_value(body.take(i - start)),
            acc <= u16::MAX,
        decreases len - i,
    {
        let c = s.get_char(i);
        if !('0' <= c && c <= '9') {
            assert(!is_digit(body[i - start]));
            return None;
        }
        let d: u32 = (c as u32) - ('0' as u32);
        let ghost prev = body.take(i - start);
        let ghost next = body.take(i - start + 1);
        assert(next.drop_last() =~= prev);
        assert(next.last() == c);
        acc = acc * 10 + d;
        i = i + 1;
        assert(all_digits(next));
        if acc > 65535 {
            proof {
                if all_digits(body) {
                    lemma_digits_value_prefix(body, i - start);
                }
            }
            return None;
        }
    }
    assert(body.take(i - start) =~= body);
    Some(acc as u16)
}

/// Renders a port in decimal.
pub fn decimal_string(n: u16) -> (s: String)
    ensures
        s@ == decimal(n as nat),
    decreases n,
{
    if n < 10 {
        String::from_str(digit_str(n))
    } else {
        let mut s = decimal_string(n / 10);
        s.append(digit_str(n % 10));
        s
    }
}

fn digit_str(d: u16) -> (r: &'static str)
    requires
        d < 10,
    ensures
        r@ == seq![digit_char(d as nat)],
{
    proof {
        reveal_strlit("0");
        reveal_strlit("1");
        reveal_strlit("2");
        reveal_strlit("3");
        reveal_strlit("4");
        reveal_strlit("5");
        reveal_strlit("6");
        reveal_strlit("7");
        reveal_strlit("8");
        reveal_strlit("9");
    }
    if d == 0 {
        "0"
    } else if d == 1 {
        "1"
    } else if d == 2 {
        "2"
    } else if d == 3 {
        "3"
    } else if d == 4 {
        "4"
    } else if d == 5 {
        "5"
    } else if d == 6 {
        "6"
    } else if d == 7 {
        "7"
    } else if d == 8 {
        "8"
    } else {
        "9"
    }
}

/// The port to listen on, from the configured text if there is one.
pub fn listen_port(configured: Option<String>) -> (p: u16)
    ensures
        p == spec_listen_port(configured.deep_view()),
{
    match configured {
        Some(text) => match parse_u16(text.as_str()) {
            Some(p) => p,
            None => DEFAULT_PORT,
        },
        None => DEFAULT_PORT,
    }
}

/// The address the server binds: all interfaces on the given port.
pub fn listen_addr(port: u16) -> (addr: String)
    ensures
        addr@ == "0.0.0.0:"@ + decimal(port as nat),
{
    let mut addr = String::from_str("0.0.0.0:");
    let digits = decimal_string(port);
    addr.append(digits.as_str());
    addr
}

/// The listen port is the configured one whenever the configured text
/// parses as a port, whatever its value; 7681 is used only when there is no
/// text or it does not parse. In particular every port written in decimal,
/// with or without a `+` or leading zeros, is used as written.
pub proof fn lemma_listen_port_uses_configured(text: Option<Seq<char>>, p: u16)
    ensures
        text is Some && spec_parse_u16(text->0) == Some(p) ==> spec_listen_port(text) == p,
        text is None || spec_parse_u16(text->0) is None ==> spec_listen_port(text) == 7681,
        spec_listen_port(Some(decimal(p as nat))) == p,
        spec_listen_port(Some(seq!['+'] + decimal(p as nat))) == p,
        spec_listen_port(Some(seq!['0'] + decimal(p as nat))) == p,
{
    lemma_port_roundtrip(p);
    lemma_decimal(p as nat);
    let d = decimal(p as nat);
    let plus = seq!['+'] + d;
    assert(unsigned_body(plus) =~= d);
    let zero = seq!['0'] + d;
    assert(unsigned_body(zero) == zero);
    lemma_leading_zero_value(d);
    assert(all_digits(zero)) by {
        assert forall|i: int| 0 <= i < zero.len() implies is_digit(#[trigger] zero[i]) by {
            if i > 0 {
                assert(zero[i] == d[i - 1]);
            }
        }
    }
}

proof fn lemma_leading_zero_value(d: Seq<char>)
    ensures
        digits_value(seq!['0'] + d) == digits_value(d),
    decreases d.len(),
{
    if d.len() == 0 {
        let z = seq!['0'];
        assert(seq!['0'] + d =~= z);
        assert(z.drop_last() =~= Seq::<char>::empty());
        assert(digits_value(z.drop_last()) == 0);
        assert(digit_value('0') == 0);
    } else {
        let z = seq!['0'] + d;
        assert(z.drop_last() =~= seq!['0'] + d.drop_last());
        assert(z.last() == d.last());
        lemma_leading_zero_value(d.drop_last());
    }
}

/// A text that starts with `-` is never a port, and neither is an empty
/// text, a lone `+`, or a text with any character other than a decimal
/// digit (past one leading `+`).
pub proof fn lemma_parse_rejects(t: Seq<char>)
    ensures
        spec_parse_u16(seq!['-'] + t) is None,
        spec_parse_u16(Seq::empty()) is None,
        spec_parse_u16(seq!['+']) is None,
        forall|i: int|
            0 <= i < t.len() && !('0' <= #[trigger] t[i] && t[i] <= '9') && !(i == 0 && t[i]
                == '+') ==> spec_parse_u16(t) is None,
{
    assert forall|i: int|
        0 <= i < t.len() && !('0' <= #[trigger] t[i] && t[i] <= '9') && !(i == 0 && t[i]
            == '+') implies spec_parse_u16(t) is None by {
        let b = unsigned_body(t);
        if t.len() > 0 && t[0] == '+' {
            assert(b[i - 1] == t[i]);
            assert(!is_digit(b[i - 1]));
        } else {
            assert(!is_digit(b[i]));
        }
    }
    let m = seq!['-'] + t;
    assert(unsigned_body(m) == m);
    assert(!is_digit(m[0]));
    assert(unsigned_body(seq!['+']) =~= Seq::<char>::empty());
}

/// A number above 65535, written in decimal, is not a port.
pub proof fn lemma_parse_rejects_too_large(n: nat)
    requires
        n > u16::MAX,
    ensures
        spec_parse_u16(decimal(n)) is None,
{
    lemma_decimal(n);
}

} // verus!

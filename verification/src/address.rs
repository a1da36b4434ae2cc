//! IPv4 addresses and their dotted-decimal text.

use crate::search::{first_where, is_first, lemma_first_found, lemma_first_missing};
use vstd::prelude::*;
use vstd::string::*;

verus! {

/// An IPv4 address: its four octets, the most significant first.
#[derive(Clone, Copy, Debug, PartialEq, Eq, Structural)]
pub struct Ipv4Address(pub u8, pub u8, pub u8, pub u8);

/// Why a text is not an IPv4 address.
#[derive(Clone, Copy, Debug, PartialEq, Eq, Structural)]
pub enum AddressError {
    /// The text is not four decimal octets separated by dots.
    Malformed,
}

/// The character that writes the digit `d`.
pub open spec fn digit_char(d: int) -> char
    recommends
        0 <= d <= 9,
{
    ('0' as int + d) as char
}

/// Whether `c` is one of `'0'` to `'9'`.
pub open spec fn is_digit(c: char) -> bool {
    '0' <= c <= '9'
}

/// The decimal notation of `n`, without leading zeros.
pub open spec fn decimal(n: nat) -> Seq<char>
    decreases n,
{
    if n < 10 {
        seq![digit_char(n as int)]
    } else {
        decimal(n / 10).push(digit_char((n % 10) as int))
    }
}

impl Ipv4Address {
    /// The dotted-decimal text of the address: the four octets in decimal,
    /// with a dot between neighbours.
    pub open spec fn text(self) -> Seq<char> {
        decimal(self.0 as nat) + seq!['.'] + decimal(self.1 as nat) + seq!['.'] + decimal(
            self.2 as nat,
        ) + seq!['.'] + decimal(self.3 as nat)
    }
}

/// The number that the digits `t` write in decimal.
pub open spec fn decimal_value(t: Seq<char>) -> int
    decreases t.len(),
{
    if t.len() == 0 {
        0
    } else {
        10 * decimal_value(t.drop_last()) + (t.last() as int - '0' as int)
    }
}

/// Whether `t` writes an octet: one to three digits, no zero in front of
/// another digit, and a value of at most 255.
pub open spec fn is_octet_text(t: Seq<char>) -> bool {
    &&& 1 <= t.len() <= 3
    &&& forall|i: int| 0 <= i < t.len() ==> is_digit(#[trigger] t[i])
    &&& (t.len() > 1 ==> t[0] != '0')
    &&& decimal_value(t) <= 255
}

/// Whether `s` is four octets with dots at the places `e0`, `e1` and `e2`
/// between them, and nothing else.
pub open spec fn dotted_at(s: Seq<char>, e0: int, e1: int, e2: int) -> bool {
    &&& 0 < e0 < e1 < e2 < s.len()
    &&& s[e0] == '.' && s[e1] == '.' && s[e2] == '.'
    &&& is_octet_text(s.subrange(0, e0))
    &&& is_octet_text(s.subrange(e0 + 1, e1))
    &&& is_octet_text(s.subrange(e1 + 1, e2))
    &&& is_octet_text(s.subrange(e2 + 1, s.len() as int))
}

/// Whether `s` is an IPv4 address in dotted decimal: four octets, each
/// written in decimal without leading zeros, with a dot between neighbours.
pub open spec fn is_ipv4_text(s: Seq<char>) -> bool {
    exists|e0: int, e1: int, e2: int| dotted_at(s, e0, e1, e2)
}

/// The address that `s` is the text of, if it is the text of one.
pub open spec fn address_of(s: Seq<char>) -> Option<Ipv4Address> {
    if exists|a: Ipv4Address| a.text() == s {
        Some(choose|a: Ipv4Address| a.text() == s)
    } else {
        None
    }
}

/// An address that a name resolved to.
#[derive(Clone, Copy, Debug, PartialEq, Eq, Structural)]
pub enum ResolvedAddress {
    V4(Ipv4Address),
    /// An IPv6 address; a run has no use for it.
    V6,
}

/// The test for an IPv4 address.
pub open spec fn of_ipv4() -> spec_fn(ResolvedAddress) -> bool {
    |address: ResolvedAddress| address is V4
}

/// The first IPv4 address among `addresses`, if there is one.
pub open spec fn first_ipv4(addresses: Seq<ResolvedAddress>) -> Option<Ipv4Address> {
    match first_where(addresses, of_ipv4()) {
        Some(ResolvedAddress::V4(a)) => Some(a),
        _ => None,
    }
}

/// The notation of an octet has one of three shapes.
pub proof fn lemma_decimal_of_octet(n: u8)
    ensures
        n < 10 ==> decimal(n as nat) == seq![digit_char(n as int)],
        10 <= n < 100 ==> decimal(n as nat) == seq![
            digit_char(n as int / 10),
            digit_char(n as int % 10),
        ],
        100 <= n ==> decimal(n as nat) == seq![
            digit_char(n as int / 100),
            digit_char((n as int / 10) % 10),
            digit_char(n as int % 10),
        ],
{
    reveal_with_fuel(decimal, 3);
    let v = n as int;
    if n >= 100 {
        assert((n as nat / 10) / 10 == n as nat / 100);
        assert(decimal(n as nat) =~= seq![
            digit_char(v / 100),
            digit_char((v / 10) % 10),
            digit_char(v % 10),
        ]);
    } else if n >= 10 {
        assert(decimal(n as nat) =~= seq![digit_char(v / 10), digit_char(v % 10)]);
    }
}

/// Whether the decimal notation of the octet `v` stands in `s` from `pos` up
/// to `end`, and no digit follows it.
pub open spec fn octet_at(s: Seq<char>, pos: int, v: u8, end: int) -> bool {
    &&& 0 <= pos < end <= s.len()
    &&& s.subrange(pos, end) == decimal(v as nat)
    &&& (end < s.len() ==> !is_digit(s[end]))
}

/// The notation of an octet is one to three digits, and starts with `0` only
/// where it is `0` alone.
pub proof fn lemma_octet_notation(v: u8)
    ensures
        1 <= decimal(v as nat).len() <= 3,
        forall|i: int| 0 <= i < decimal(v as nat).len() ==> is_digit(#[trigger] decimal(v as nat)[i]),
        decimal(v as nat).len() > 1 ==> decimal(v as nat)[0] != '0',
{
    lemma_decimal_of_octet(v);
}

/// Two octets with the same notation are the same octet.
pub proof fn lemma_decimal_injective(v: u8, w: u8)
    requires
        decimal(v as nat) == decimal(w as nat),
    ensures
        v == w,
{
    lemma_decimal_of_octet(v);
    lemma_decimal_of_octet(w);
    let dv = decimal(v as nat);
    let dw = decimal(w as nat);
    assert(dv.len() == dw.len());
    assert(dv[0] == dw[0]);
    if dv.len() >= 2 {
        assert(dv[1] == dw[1]);
    }
    if dv.len() >= 3 {
        assert(dv[2] == dw[2]);
    }
}

/// At one place of a text at most one octet stands.
pub proof fn lemma_octet_at_unique(s: Seq<char>, pos: int, v: u8, end: int, w: u8, stop: int)
    requires
        octet_at(s, pos, v, end),
        octet_at(s, pos, w, stop),
    ensures
        v == w,
        end == stop,
{
    lemma_octet_notation(v);
    lemma_octet_notation(w);
    if end < stop {
        assert(s.subrange(pos, stop)[end - pos] == s[end]);
    } else if stop < end {
        assert(s.subrange(pos, end)[stop - pos] == s[stop]);
    }
    lemma_decimal_injective(v, w);
}

/// Where the four octets of `a` stand in its text.
pub open spec fn laid_out(s: Seq<char>, a: Ipv4Address, e0: int, e1: int, e2: int) -> bool {
    &&& octet_at(s, 0, a.0, e0)
    &&& e0 < s.len() && s[e0] == '.'
    &&& octet_at(s, e0 + 1, a.1, e1)
    &&& e1 < s.len() && s[e1] == '.'
    &&& octet_at(s, e1 + 1, a.2, e2)
    &&& e2 < s.len() && s[e2] == '.'
    &&& octet_at(s, e2 + 1, a.3, s.len() as int)
}

impl Ipv4Address {
    /// The place of the first dot in the text of the address.
    pub open spec fn first_dot(self) -> int {
        decimal(self.0 as nat).len() as int
    }

    /// The place of the second dot in the text of the address.
    pub open spec fn second_dot(self) -> int {
        self.first_dot() + 1 + decimal(self.1 as nat).len()
    }

    /// The place of the third dot in the text of the address.
    pub open spec fn third_dot(self) -> int {
        self.second_dot() + 1 + decimal(self.2 as nat).len()
    }
}

/// The text of an address is laid out as four octets with dots between them.
pub proof fn lemma_text_laid_out(a: Ipv4Address)
    ensures
        laid_out(a.text(), a, a.first_dot(), a.second_dot(), a.third_dot()),
{
    let s = a.text();
    let d0 = decimal(a.0 as nat);
    let d1 = decimal(a.1 as nat);
    let d2 = decimal(a.2 as nat);
    let d3 = decimal(a.3 as nat);
    let e0 = d0.len() as int;
    let e1 = e0 + 1 + d1.len();
    let e2 = e1 + 1 + d2.len();
    lemma_octet_notation(a.0);
    lemma_octet_notation(a.1);
    lemma_octet_notation(a.2);
    lemma_octet_notation(a.3);
    assert(s.len() == e2 + 1 + d3.len());
    assert(s.subrange(0, e0) =~= d0);
    assert(s.subrange(e0 + 1, e1) =~= d1);
    assert(s.subrange(e1 + 1, e2) =~= d2);
    assert(s.subrange(e2 + 1, s.len() as int) =~= d3);
    assert(s[e0] == '.');
    assert(s[e1] == '.');
    assert(s[e2] == '.');
}

/// A text that is laid out as the octets of `a` is the text of `a`.
pub proof fn lemma_laid_out_is_text(s: Seq<char>, a: Ipv4Address, e0: int, e1: int, e2: int)
    requires
        laid_out(s, a, e0, e1, e2),
    ensures
        a.text() == s,
{
    assert(a.text() =~= s.subrange(0, e0) + seq!['.'] + s.subrange(e0 + 1, e1) + seq!['.']
        + s.subrange(e1 + 1, e2) + seq!['.'] + s.subrange(e2 + 1, s.len() as int));
    assert(a.text() =~= s);
}

/// The text of an address lays out no other address, and in no other way.
pub proof fn lemma_layout_unique(
    a: Ipv4Address,
    e0: int,
    e1: int,
    e2: int,
    b: Ipv4Address,
    f0: int,
    f1: int,
    f2: int,
    s: Seq<char>,
)
    requires
        laid_out(s, a, e0, e1, e2),
        laid_out(s, b, f0, f1, f2),
    ensures
        a == b,
        e0 == f0,
        e1 == f1,
        e2 == f2,
{
    lemma_octet_at_unique(s, 0, a.0, e0, b.0, f0);
    lemma_octet_at_unique(s, e0 + 1, a.1, e1, b.1, f1);
    lemma_octet_at_unique(s, e1 + 1, a.2, e2, b.2, f2);
    lemma_octet_at_unique(s, e2 + 1, a.3, s.len() as int, b.3, s.len() as int);
}

/// Two addresses with the same text are the same address.
pub proof fn lemma_text_injective(a: Ipv4Address, b: Ipv4Address)
    requires
        a.text() == b.text(),
    ensures
        a == b,
{
    lemma_text_laid_out(a);
    lemma_text_laid_out(b);
    lemma_layout_unique(
        a,
        a.first_dot(),
        a.second_dot(),
        a.third_dot(),
        b,
        b.first_dot(),
        b.second_dot(),
        b.third_dot(),
        a.text(),
    );
}

/// Reading the text of an address gives the address.
pub proof fn lemma_address_of_text(a: Ipv4Address)
    ensures
        address_of(a.text()) == Some(a),
{
    let b = choose|b: Ipv4Address| b.text() == a.text();
    lemma_text_injective(a, b);
}

/// The notation of an octet writes an octet, and its value is that octet.
pub proof fn lemma_decimal_is_octet_text(v: u8)
    ensures
        is_octet_text(decimal(v as nat)),
        decimal_value(decimal(v as nat)) == v,
{
    lemma_decimal_of_octet(v);
    lemma_octet_notation(v);
    let t = decimal(v as nat);
    reveal_with_fuel(decimal_value, 4);
    if t.len() == 3 {
        assert(t.drop_last().drop_last() =~= seq![t[0]]);
        assert(t.drop_last() =~= seq![t[0], t[1]]);
    } else if t.len() == 2 {
        assert(t.drop_last() =~= seq![t[0]]);
    }
}

/// What writes an octet is the notation of its value.
pub proof fn lemma_octet_text_is_decimal(t: Seq<char>)
    requires
        is_octet_text(t),
    ensures
        0 <= decimal_value(t) <= 255,
        decimal(decimal_value(t) as nat) == t,
{
    reveal_with_fuel(decimal_value, 4);
    assert(is_digit(t[0]));
    if t.len() >= 2 {
        assert(is_digit(t[1]));
    }
    if t.len() == 3 {
        assert(is_digit(t[2]));
        assert(t.drop_last().drop_last() =~= seq![t[0]]);
        assert(t.drop_last() =~= seq![t[0], t[1]]);
    } else if t.len() == 2 {
        assert(t.drop_last() =~= seq![t[0]]);
    }
    let v = decimal_value(t) as u8;
    lemma_decimal_of_octet(v);
    assert(decimal(v as nat) =~= t);
}

/// The texts of the addresses are the IPv4 texts, and no others.
pub proof fn lemma_ipv4_text_has_address(s: Seq<char>)
    ensures
        is_ipv4_text(s) <==> exists|a: Ipv4Address| a.text() == s,
{
    if is_ipv4_text(s) {
        let (e0, e1, e2) = choose|e0: int, e1: int, e2: int| dotted_at(s, e0, e1, e2);
        let t0 = s.subrange(0, e0);
        let t1 = s.subrange(e0 + 1, e1);
        let t2 = s.subrange(e1 + 1, e2);
        let t3 = s.subrange(e2 + 1, s.len() as int);
        lemma_octet_text_is_decimal(t0);
        lemma_octet_text_is_decimal(t1);
        lemma_octet_text_is_decimal(t2);
        lemma_octet_text_is_decimal(t3);
        let a = Ipv4Address(
            decimal_value(t0) as u8,
            decimal_value(t1) as u8,
            decimal_value(t2) as u8,
            decimal_value(t3) as u8,
        );
        assert(laid_out(s, a, e0, e1, e2));
        lemma_laid_out_is_text(s, a, e0, e1, e2);
        assert(a.text() == s);
    }
    if exists|a: Ipv4Address| a.text() == s {
        let a = choose|a: Ipv4Address| a.text() == s;
        lemma_text_laid_out(a);
        lemma_decimal_is_octet_text(a.0);
        lemma_decimal_is_octet_text(a.1);
        lemma_decimal_is_octet_text(a.2);
        lemma_decimal_is_octet_text(a.3);
        assert(dotted_at(s, a.first_dot(), a.second_dot(), a.third_dot()));
    }
}

/// Reading an IPv4 text and writing the address that it gave yields the text
/// again.
pub proof fn lemma_text_of_address(s: Seq<char>)
    requires
        is_ipv4_text(s),
    ensures
        address_of(s) is Some,
        address_of(s).unwrap().text() == s,
{
    lemma_ipv4_text_has_address(s);
}

/// The text of an address holds digits and dots only.
pub proof fn lemma_text_is_ascii(a: Ipv4Address)
    ensures
        vstd::utf8::is_ascii_chars(a.text()),
{
    lemma_text_laid_out(a);
    let s = a.text();
    let e0 = a.first_dot();
    let e1 = a.second_dot();
    let e2 = a.third_dot();
    assert forall|i: int| 0 <= i < s.len() implies '\0' <= #[trigger] s[i] <= '\u{7f}' by {
        lemma_octet_notation(a.0);
        lemma_octet_notation(a.1);
        lemma_octet_notation(a.2);
        lemma_octet_notation(a.3);
        if i < e0 {
            assert(s[i] == s.subrange(0, e0)[i]);
        } else if i == e0 {
        } else if i < e1 {
            assert(s[i] == s.subrange(e0 + 1, e1)[i - e0 - 1]);
        } else if i == e1 {
        } else if i < e2 {
            assert(s[i] == s.subrange(e1 + 1, e2)[i - e1 - 1]);
        } else if i == e2 {
        } else {
            assert(s[i] == s.subrange(e2 + 1, s.len() as int)[i - e2 - 1]);
        }
    }
}

fn digit_text(d: u8) -> (r: &'static str)
    requires
        d < 10,
    ensures
        r@ == seq![digit_char(d as int)],
{
    proof {
        reveal_strlit("0");
        reveal_strlit("1");
        reveal_strlit("2");
        reveal_strlit("3");
        reveal_strlit("4");
        reveal_strlit("5");
        reveal_strlit("6");
        reveal_strlit("7");
        reveal_strlit("8");
        reveal_strlit("9");
    }
    let r = match d {
        0 => "0",
        1 => "1",
        2 => "2",
        3 => "3",
        4 => "4",
        5 => "5",
        6 => "6",
        7 => "7",
        8 => "8",
        _ => "9",
    };
    assert(r@ =~= seq![digit_char(d as int)]);
    r
}

/// Appends the decimal notation of `n` to `out`.
fn push_decimal(out: &mut String, n: u8)
    ensures
        final(out)@ == old(out)@ + decimal(n as nat),
{
    proof {
        lemma_decimal_of_octet(n);
    }
    if n >= 100 {
        out.append(digit_text(n / 100));
    }
    if n >= 10 {
        out.append(digit_text((n / 10) % 10));
    }
    out.append(digit_text(n % 10));
    assert(out@ =~= old(out)@ + decimal(n as nat));
}

/// The digit at place `i` of `text`, if one stands there.
fn digit_at(text: &str, i: usize, len: usize) -> (r: Option<u8>)
    requires
        is_ascii(text),
        len == text@.len(),
    ensures
        match r {
            Some(d) => i < len && d < 10 && text@[i as int] == digit_char(d as int) && is_digit(
                text@[i as int],
            ),
            None => i >= len || !is_digit(text@[i as int]),
        },
{
    if i >= len {
        return None;
    }
    let b = text.get_ascii(i);
    if b < 48 || b > 57 {
        None
    } else {
        Some(b - 48)
    }
}

/// Reads the octet that stands at `pos`, and says where it ends.
fn read_octet(text: &str, pos: usize, len: usize) -> (r: Option<(u8, usize)>)
    requires
        is_ascii(text),
        len == text@.len(),
        pos <= len,
    ensures
        match r {
            Some((v, end)) => octet_at(text@, pos as int, v, end as int),
            None => forall|v: u8, end: int| !octet_at(text@, pos as int, v, end),
        },
{
    let ghost s = text@;
    let ghost p = pos as int;
    let d0 = match digit_at(text, pos, len) {
        Some(d) => d,
        None => {
            assert forall|v: u8, end: int| !octet_at(s, p, v, end) by {
                if octet_at(s, p, v, end) {
                    lemma_octet_notation(v);
                    assert(s.subrange(p, end)[0] == s[p]);
                }
            }
            return None;
        },
    };
    let d1 = match digit_at(text, pos + 1, len) {
        Some(d) => d,
        None => {
            proof {
                lemma_decimal_of_octet(d0);
                assert(s.subrange(p, p + 1) =~= decimal(d0 as nat));
            }
            return Some((d0, pos + 1));
        },
    };
    if d0 == 0 {
        assert forall|v: u8, end: int| !octet_at(s, p, v, end) by {
            if octet_at(s, p, v, end) {
                lemma_octet_notation(v);
                assert(s.subrange(p, end)[0] == s[p]);
                assert(end > p + 1);
            }
        }
        return None;
    }
    let d2 = match digit_at(text, pos + 2, len) {
        Some(d) => d,
        None => {
            let v: u8 = d0 * 10 + d1;
            proof {
                lemma_decimal_of_octet(v);
                assert(s.subrange(p, p + 2) =~= decimal(v as nat));
            }
            return Some((v, pos + 2));
        },
    };
    if digit_at(text, pos + 3, len).is_some() {
        assert forall|v: u8, end: int| !octet_at(s, p, v, end) by {
            if octet_at(s, p, v, end) {
                lemma_octet_notation(v);
            }
        }
        return None;
    }
    let wide: u16 = (d0 as u16) * 100 + (d1 as u16) * 10 + (d2 as u16);
    if wide > 255 {
        assert forall|v: u8, end: int| !octet_at(s, p, v, end) by {
            if octet_at(s, p, v, end) {
                lemma_octet_notation(v);
                lemma_decimal_of_octet(v);
                assert(end == p + 3);
                let t = s.subrange(p, end);
                assert(t[0] == s[p] && t[1] == s[p + 1] && t[2] == s[p + 2]);
            }
        }
        return None;
    }
    let v: u8 = wide as u8;
    proof {
        lemma_decimal_of_octet(v);
        assert(s.subrange(p, p + 3) =~= decimal(v as nat));
    }
    Some((v, pos + 3))
}

/// Whether a dot stands at place `i` of `text`.
fn dot_at(text: &str, i: usize, len: usize) -> (r: bool)
    requires
        is_ascii(text),
        len == text@.len(),
    ensures
        r == (i < len && text@[i as int] == '.'),
{
    i < len && text.get_ascii(i) == 46
}

impl Ipv4Address {
    /// The address made of the four octets.
    pub fn new(a: u8, b: u8, c: u8, d: u8) -> (r: Ipv4Address)
        ensures
            r == Ipv4Address(a, b, c, d),
    {
        Ipv4Address(a, b, c, d)
    }

    /// The four octets, the most significant first.
    pub fn octets(&self) -> (r: [u8; 4])
        ensures
            r@ == seq![self.0, self.1, self.2, self.3],
    {
        let r = [self.0, self.1, self.2, self.3];
        assert(r@ =~= seq![self.0, self.1, self.2, self.3]);
        r
    }

    /// Reads an address from its dotted-decimal text: four octets in decimal
    /// without leading zeros, a dot between neighbours, and nothing else.
    pub fn parse(text: &str) -> (r: Result<Ipv4Address, AddressError>)
        ensures
            r is Ok <==> is_ipv4_text(text@),
            match r {
                Ok(a) => a.text() == text@,
                Err(e) => e == AddressError::Malformed,
            },
            r.ok() == address_of(text@),
    {
        let r = Ipv4Address::scan(text);
        proof {
            lemma_ipv4_text_has_address(text@);
        }
        r
    }

    /// Reads the four octets and the dots of `text` from left to right.
    fn scan(text: &str) -> (r: Result<Ipv4Address, AddressError>)
        ensures
            match r {
                Ok(a) => a.text() == text@,
                Err(e) => e == AddressError::Malformed && forall|a: Ipv4Address|
                    a.text() != text@,
            },
            r.ok() == address_of(text@),
    {
        let ghost s = text@;
        if !text.is_ascii() {
            assert forall|a: Ipv4Address| a.text() != s by {
                lemma_text_is_ascii(a);
            }
            return Err(AddressError::Malformed);
        }
        let len = text.unicode_len();
        let (v0, e0) = match read_octet(text, 0, len) {
            Some(found) => found,
            None => {
                assert forall|a: Ipv4Address| a.text() != s by {
                    lemma_text_laid_out(a);
                }
                return Err(AddressError::Malformed);
            },
        };
        if !dot_at(text, e0, len) {
            assert forall|a: Ipv4Address| a.text() != s by {
                lemma_text_laid_out(a);
                if a.text() == s {
                    lemma_octet_at_unique(s, 0, v0, e0 as int, a.0, a.first_dot());
                }
            }
            return Err(AddressError::Malformed);
        }
        let (v1, e1) = match read_octet(text, e0 + 1, len) {
            Some(found) => found,
            None => {
                assert forall|a: Ipv4Address| a.text() != s by {
                    lemma_text_laid_out(a);
                    if a.text() == s {
                        lemma_octet_at_unique(s, 0, v0, e0 as int, a.0, a.first_dot());
                    }
                }
                return Err(AddressError::Malformed);
            },
        };
        if !dot_at(text, e1, len) {
            assert forall|a: Ipv4Address| a.text() != s by {
                lemma_text_laid_out(a);
                if a.text() == s {
                    lemma_octet_at_unique(s, 0, v0, e0 as int, a.0, a.first_dot());
                    lemma_octet_at_unique(s, e0 + 1, v1, e1 as int, a.1, a.second_dot());
                }
            }
            return Err(AddressError::Malformed);
        }
        let (v2, e2) = match read_octet(text, e1 + 1, len) {
            Some(found) => found,
            None => {
                assert forall|a: Ipv4Address| a.text() != s by {
                    lemma_text_laid_out(a);
                    if a.text() == s {
                        lemma_octet_at_unique(s, 0, v0, e0 as int, a.0, a.first_dot());
                        lemma_octet_at_unique(s, e0 + 1, v1, e1 as int, a.1, a.second_dot());
                    }
                }
                return Err(AddressError::Malformed);
            },
        };
        if !dot_at(text, e2, len) {
            assert forall|a: Ipv4Address| a.text() != s by {
                lemma_text_laid_out(a);
                if a.text() == s {
                    lemma_octet_at_unique(s, 0, v0, e0 as int, a.0, a.first_dot());
                    lemma_octet_at_unique(s, e0 + 1, v1, e1 as int, a.1, a.second_dot());
                    lemma_octet_at_unique(s, e1 + 1, v2, e2 as int, a.2, a.third_dot());
                }
            }
            return Err(AddressError::Malformed);
        }
        let (v3, e3) = match read_octet(text, e2 + 1, len) {
            Some(found) => found,
            None => {
                assert forall|a: Ipv4Address| a.text() != s by {
                    lemma_text_laid_out(a);
                    if a.text() == s {
                        lemma_octet_at_unique(s, 0, v0, e0 as int, a.0, a.first_dot());
                        lemma_octet_at_unique(s, e0 + 1, v1, e1 as int, a.1, a.second_dot());
                        lemma_octet_at_unique(s, e1 + 1, v2, e2 as int, a.2, a.third_dot());
                    }
                }
                return Err(AddressError::Malformed);
            },
        };
        if e3 != len {
            assert forall|a: Ipv4Address| a.text() != s by {
                lemma_text_laid_out(a);
                if a.text() == s {
                    lemma_octet_at_unique(s, 0, v0, e0 as int, a.0, a.first_dot());
                    lemma_octet_at_unique(s, e0 + 1, v1, e1 as int, a.1, a.second_dot());
                    lemma_octet_at_unique(s, e1 + 1, v2, e2 as int, a.2, a.third_dot());
                    lemma_octet_at_unique(s, e2 + 1, v3, e3 as int, a.3, s.len() as int);
                }
            }
            return Err(AddressError::Malformed);
        }
        let found = Ipv4Address(v0, v1, v2, v3);
        proof {
            lemma_laid_out_is_text(s, found, e0 as int, e1 as int, e2 as int);
            lemma_address_of_text(found);
        }
        Ok(found)
    }

    /// Writes the address in dotted decimal.
    pub fn to_text(&self) -> (r: String)
        ensures
            r@ == self.text(),
    {
        let mut out = String::new();
        push_decimal(&mut out, self.0);
        out.append(".");
        push_decimal(&mut out, self.1);
        out.append(".");
        push_decimal(&mut out, self.2);
        out.append(".");
        push_decimal(&mut out, self.3);
        proof {
            reveal_strlit(".");
            assert("."@ =~= seq!['.']);
            assert(out@ =~= self.text());
        }
        out
    }
}

/// Finds the first IPv4 address among `addresses`.
pub fn find_ipv4(addresses: &Vec<ResolvedAddress>) -> (r: Option<Ipv4Address>)
    ensures
        match r {
            Some(a) => exists|i: int|
                is_first(addresses@, of_ipv4(), i) && addresses@[i] == ResolvedAddress::V4(a),
            None => forall|i: int| 0 <= i < addresses.len() ==> addresses@[i] is V6,
        },
        r == first_ipv4(addresses@),
{
    let ghost wanted = of_ipv4();
    let mut i: usize = 0;
    while i < addresses.len()
        invariant
            i <= addresses.len(),
            wanted == of_ipv4(),
            forall|j: int| 0 <= j < i ==> !wanted(#[trigger] addresses@[j]),
        decreases addresses.len() - i,
    {
        if let ResolvedAddress::V4(a) = addresses[i] {
            proof {
                assert(is_first(addresses@, wanted, i as int));
                lemma_first_found(addresses@, wanted, i as int);
            }
            return Some(a);
        }
        i += 1;
    }
    proof {
        lemma_first_missing(addresses@, wanted);
        assert forall|k: int| 0 <= k < addresses.len() implies addresses@[k] is V6 by {
            assert(!wanted(addresses@[k]));
        }
    }
    None
}

} // verus!

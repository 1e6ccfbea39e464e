//! IPv4 addresses: their text, their arithmetic, and the choice of a name
//! server from resolver configurations.
use vstd::prelude::*;
use vstd::string::StringExecFns;

use crate::text;

verus! {

/// An IPv4 address by its four octets.
#[derive(Debug, Clone, Copy, PartialEq, Eq, Structural)]
pub struct Ipv4Addr {
    pub a: u8,
    pub b: u8,
    pub c: u8,
    pub d: u8,
}

/// The text of an address: four numbers with dots between them.
pub open spec fn dotted(ip: Ipv4Addr) -> Seq<char> {
    text::joined(
        seq![
            text::decimal(ip.a as nat),
            text::decimal(ip.b as nat),
            text::decimal(ip.c as nat),
            text::decimal(ip.d as nat),
        ],
        '.',
    )
}

/// The address as one number.
pub open spec fn number(ip: Ipv4Addr) -> int {
    ip.a * 16777216 + ip.b * 65536 + ip.c * 256 + ip.d
}

impl Ipv4Addr {
    pub fn new(a: u8, b: u8, c: u8, d: u8) -> (r: Ipv4Addr)
        ensures
            r == (Ipv4Addr { a, b, c, d }),
    {
        Ipv4Addr { a, b, c, d }
    }

    /// An address of the loopback network 127.0.0.0/8.
    pub fn is_loopback(&self) -> (r: bool)
        ensures
            r == (self.a == 127),
    {
        self.a == 127
    }

    /// The address 0.0.0.0.
    pub fn is_unspecified(&self) -> (r: bool)
        ensures
            r == (self.a == 0 && self.b == 0 && self.c == 0 && self.d == 0),
    {
        self.a == 0 && self.b == 0 && self.c == 0 && self.d == 0
    }

    pub fn to_text(&self) -> (r: String)
        ensures
            r@ == dotted(*self),
    {
        let mut r = text::decimal_of(self.a as u64);
        r.push('.');
        r.append(text::decimal_of(self.b as u64).as_str());
        r.push('.');
        r.append(text::decimal_of(self.c as u64).as_str());
        r.push('.');
        r.append(text::decimal_of(self.d as u64).as_str());
        proof {
            lemma_dotted(*self);
        }
        assert(r@ =~= dotted(*self));
        r
    }

    /// The address that lies `offset` above this one, if there is one.
    pub fn checked_offset(&self, offset: u32) -> (r: Option<Ipv4Addr>)
        ensures
            r is Some <==> number(*self) + offset <= u32::MAX,
            r matches Some(ip) ==> number(ip) == number(*self) + offset,
    {
        let base: u64 = self.a as u64 * 16777216 + self.b as u64 * 65536 + self.c as u64 * 256
            + self.d as u64;
        let sum: u64 = base + offset as u64;
        if sum > u32::MAX as u64 {
            None
        } else {
            proof {
                lemma_four_digits(sum as int);
            }
            Some(
                Ipv4Addr {
                    a: (sum / 16777216) as u8,
                    b: (sum / 65536 % 256) as u8,
                    c: (sum / 256 % 256) as u8,
                    d: (sum % 256) as u8,
                },
            )
        }
    }
}

/// A number of 32 bits in base 256.
proof fn lemma_four_digits(n: int)
    requires
        0 <= n <= u32::MAX,
    ensures
        0 <= n / 16777216 < 256,
        n == n / 16777216 * 16777216 + n / 65536 % 256 * 65536 + n / 256 % 256 * 256 + n % 256,
{
    assert(n / 65536 == n / 256 / 256);
    assert(n / 16777216 == n / 65536 / 256);
}

pub(crate) proof fn lemma_dotted(ip: Ipv4Addr)
    ensures
        dotted(ip) == text::decimal(ip.a as nat) + seq!['.'] + text::decimal(ip.b as nat) + seq!['.']
            + text::decimal(ip.c as nat) + seq!['.'] + text::decimal(ip.d as nat),
{
    let parts = seq![
        text::decimal(ip.a as nat),
        text::decimal(ip.b as nat),
        text::decimal(ip.c as nat),
        text::decimal(ip.d as nat),
    ];
    reveal_with_fuel(text::joined, 4);
    assert(parts.drop_last().drop_last().drop_last() =~= seq![parts[0]]);
    assert(dotted(ip) =~= text::decimal(ip.a as nat) + seq!['.'] + text::decimal(ip.b as nat)
        + seq!['.'] + text::decimal(ip.c as nat) + seq!['.'] + text::decimal(ip.d as nat));
}

proof fn lemma_no_dot(n: nat)
    ensures
        !text::decimal(n).contains('.'),
{
    text::decimal_stands_for_its_number(n);
    assert forall|i: int| 0 <= i < text::decimal(n).len() implies text::decimal(n)[i] != '.' by {
        assert('0' <= text::decimal(n)[i]);
    }
}

/// The pieces of an address text are the numerals of its octets.
proof fn lemma_split_dotted(ip: Ipv4Addr)
    ensures
        text::split(dotted(ip), '.') == seq![
            text::decimal(ip.a as nat),
            text::decimal(ip.b as nat),
            text::decimal(ip.c as nat),
            text::decimal(ip.d as nat),
        ],
{
    let a = text::decimal(ip.a as nat);
    let b = text::decimal(ip.b as nat);
    let c = text::decimal(ip.c as nat);
    let d = text::decimal(ip.d as nat);
    lemma_no_dot(ip.a as nat);
    lemma_no_dot(ip.b as nat);
    lemma_no_dot(ip.c as nat);
    lemma_no_dot(ip.d as nat);
    lemma_dotted(ip);
    text::lemma_split_single(a, '.');
    text::lemma_split_after(a, '.', b);
    text::lemma_split_after(a + seq!['.'] + b, '.', c);
    text::lemma_split_after(a + seq!['.'] + b + seq!['.'] + c, '.', d);
    assert(seq![a].push(b).push(c).push(d) =~= seq![a, b, c, d]);
}

/// Different addresses have different texts.
pub proof fn address_text_is_injective(x: Ipv4Addr, y: Ipv4Addr)
    requires
        dotted(x) == dotted(y),
    ensures
        x == y,
{
    lemma_split_dotted(x);
    lemma_split_dotted(y);
    let p = text::split(dotted(x), '.');
    assert(p[0] == text::decimal(x.a as nat) && p[0] == text::decimal(y.a as nat));
    assert(p[1] == text::decimal(x.b as nat) && p[1] == text::decimal(y.b as nat));
    assert(p[2] == text::decimal(x.c as nat) && p[2] == text::decimal(y.c as nat));
    assert(p[3] == text::decimal(x.d as nat) && p[3] == text::decimal(y.d as nat));
    text::decimal_is_injective(x.a as nat, y.a as nat);
    text::decimal_is_injective(x.b as nat, y.b as nat);
    text::decimal_is_injective(x.c as nat, y.c as nat);
    text::decimal_is_injective(x.d as nat, y.d as nat);
}

proof fn lemma_octet_length(n: nat)
    requires
        n <= 255,
    ensures
        1 <= text::decimal(n).len() <= 3,
{
    reveal_with_fuel(text::decimal, 3);
}

/// Reads a numeral from 0 to 255 without a superfluous zero.
fn parse_octet(s: &str) -> (r: Option<u8>)
    ensures
        r matches Some(v) ==> s@ == text::decimal(v as nat),
        r is None ==> forall|v: u8| s@ != #[trigger] text::decimal(v as nat),
{
    let v = text::chars_of(s);
    proof {
        assert forall|n: u8| s@ == #[trigger] text::decimal(n as nat) implies s@.len() >= 1
            && s@.len() <= 3 && text::all_digits(s@) && (s@.len() > 1 ==> s@[0] != '0')
            && text::digits_value(s@) == n by {
            lemma_octet_length(n as nat);
            text::decimal_stands_for_its_number(n as nat);
        }
    }
    if v.len() == 0 || v.len() > 3 {
        return None;
    }
    if v.len() > 1 && v[0] == '0' {
        return None;
    }
    let mut value: u32 = 0;
    let mut i: usize = 0;
    assert(v@.take(0) =~= Seq::empty());
    while i < v.len()
        invariant
            i <= v@.len() <= 3,
            v@ == s@,
            value == text::digits_value(v@.take(i as int)),
            i == 0 ==> value == 0,
            i == 1 ==> value <= 9,
            i == 2 ==> value <= 99,
            i == 3 ==> value <= 999,
            forall|k: int| 0 <= k < i ==> '0' <= #[trigger] v@[k] && v@[k] <= '9',
            forall|n: u8| s@ == #[trigger] text::decimal(n as nat) ==> text::all_digits(s@),
        decreases v.len() - i,
    {
        let c = v[i];
        if !('0' <= c && c <= '9') {
            proof {
                if text::all_digits(s@) {
                    assert('0' <= s@[i as int] && s@[i as int] <= '9');
                }
            }
            return None;
        }
        assert(v@.take(i + 1).drop_last() =~= v@.take(i as int));
        let digit: u32 = c as u32 - 48;
        value = value * 10 + digit;
        i += 1;
    }
    assert(v@.take(v@.len() as int) =~= v@);
    if value > 255 {
        return None;
    }
    proof {
        assert(text::all_digits(s@));
        text::lemma_canonical_digits(s@);
    }
    Some(value as u8)
}

/// The address that a text stands for, if it is the text of one.
pub open spec fn parsed(s: Seq<char>) -> Option<Ipv4Addr> {
    if exists|ip: Ipv4Addr| s == #[trigger] dotted(ip) {
        Some(choose|ip: Ipv4Addr| s == #[trigger] dotted(ip))
    } else {
        None
    }
}

/// Reading the text of an address gives the address.
pub proof fn parsing_undoes_writing(ip: Ipv4Addr)
    ensures
        parsed(dotted(ip)) == Some(ip),
{
    let found = choose|x: Ipv4Addr| dotted(ip) == #[trigger] dotted(x);
    assert(dotted(ip) == dotted(ip));
    address_text_is_injective(ip, found);
}

/// Reads an address: the inverse of writing one.
pub fn parse_ipv4(s: &str) -> (r: Option<Ipv4Addr>)
    ensures
        r == parsed(s@),
{
    let pieces = text::split_at_char(s, '.');
    let ghost all = text::views(pieces@);
    assert(all.len() == pieces@.len());
    proof {
        assert forall|ip: Ipv4Addr| s@ == #[trigger] dotted(ip) implies all.len() == 4 && all[0]
            == text::decimal(ip.a as nat) && all[1] == text::decimal(ip.b as nat) && all[2]
            == text::decimal(ip.c as nat) && all[3] == text::decimal(ip.d as nat) by {
            lemma_split_dotted(ip);
        }
        text::joining_undoes_splitting(s@, '.');
    }
    if pieces.len() != 4 {
        return None;
    }
    let a: u8 = match parse_octet(pieces[0].as_str()) {
        Some(v) => v,
        None => {
            return None;
        },
    };
    let b: u8 = match parse_octet(pieces[1].as_str()) {
        Some(v) => v,
        None => {
            return None;
        },
    };
    let c: u8 = match parse_octet(pieces[2].as_str()) {
        Some(v) => v,
        None => {
            return None;
        },
    };
    let d: u8 = match parse_octet(pieces[3].as_str()) {
        Some(v) => v,
        None => {
            return None;
        },
    };
    let ip = Ipv4Addr { a, b, c, d };
    assert(all =~= seq![
        text::decimal(ip.a as nat),
        text::decimal(ip.b as nat),
        text::decimal(ip.c as nat),
        text::decimal(ip.d as nat),
    ]);
    proof {
        parsing_undoes_writing(ip);
    }
    Some(ip)
}

/// An address that a guest can use as its name server.
pub open spec fn usable_nameserver(ip: Ipv4Addr) -> bool {
    ip.a != 127 && !(ip.a == 0 && ip.b == 0 && ip.c == 0 && ip.d == 0)
}

/// The name server that one line of a resolver configuration gives: the word
/// `nameserver`, then an address that a guest can use.
pub open spec fn line_nameserver(line: Seq<char>) -> Option<Ipv4Addr> {
    let t = text::trimmed(line);
    let w = text::words(t);
    if t.len() == 0 || t[0] == '#' {
        None
    } else if w.len() >= 2 && w[0] == "nameserver"@ && parsed(w[1]) is Some && usable_nameserver(
        parsed(w[1])->0,
    ) {
        parsed(w[1])
    } else {
        None
    }
}

/// The name server that the first of some lines gives that gives one.
pub open spec fn first_nameserver(lines: Seq<Seq<char>>) -> Option<Ipv4Addr>
    decreases lines.len(),
{
    if lines.len() == 0 {
        None
    } else {
        match first_nameserver(lines.drop_last()) {
            Some(ip) => Some(ip),
            None => line_nameserver(lines.last()),
        }
    }
}

/// The name server of a resolver configuration.
pub open spec fn nameserver_of(contents: Seq<char>) -> Option<Ipv4Addr> {
    first_nameserver(text::split(contents, '\n'))
}

fn parse_nameserver_line(line: &str) -> (r: Option<Ipv4Addr>)
    ensures
        r == line_nameserver(line@),
{
    let trimmed = text::trim(line);
    let v = text::chars_of(trimmed.as_str());
    if v.len() == 0 || v[0] == '#' {
        return None;
    }
    let parts = text::split_whitespace(trimmed.as_str());
    let ghost w = text::views(parts@);
    assert(w.len() == parts@.len());
    if parts.len() < 2 {
        return None;
    }
    if !text::same(parts[0].as_str(), "nameserver") {
        return None;
    }
    match parse_ipv4(parts[1].as_str()) {
        Some(ip) => {
            if ip.is_loopback() || ip.is_unspecified() {
                None
            } else {
                Some(ip)
            }
        },
        None => None,
    }
}

proof fn lemma_first_nameserver_prefix(lines: Seq<Seq<char>>, n: int)
    requires
        0 <= n <= lines.len(),
        first_nameserver(lines.take(n)) is Some,
    ensures
        first_nameserver(lines) == first_nameserver(lines.take(n)),
    decreases lines.len(),
{
    if n == lines.len() {
        assert(lines.take(n) =~= lines);
    } else {
        assert(lines.drop_last().take(n) =~= lines.take(n));
        lemma_first_nameserver_prefix(lines.drop_last(), n);
    }
}

/// The first name server of a resolver configuration that a guest can use.
pub fn parse_nameserver_ipv4(contents: &str) -> (r: Option<Ipv4Addr>)
    ensures
        r == nameserver_of(contents@),
{
    let lines = text::split_at_char(contents, '\n');
    let ghost all = text::views(lines@);
    let mut i: usize = 0;
    assert(all.take(0) =~= Seq::empty());
    while i < lines.len()
        invariant
            i <= lines@.len(),
            all == text::views(lines@),
            all == text::split(contents@, '\n'),
            first_nameserver(all.take(i as int)) is None,
        decreases lines.len() - i,
    {
        assert(all.take(i + 1).drop_last() =~= all.take(i as int));
        assert(all.take(i + 1).last() == lines@[i as int]@);
        match parse_nameserver_line(lines[i].as_str()) {
            Some(ip) => {
                proof {
                    lemma_first_nameserver_prefix(all, i + 1);
                }
                return Some(ip);
            },
            None => {},
        }
        i += 1;
    }
    assert(all.take(all.len() as int) =~= all);
    None
}

proof fn lemma_first_nameserver_usable(lines: Seq<Seq<char>>)
    ensures
        first_nameserver(lines) matches Some(ip) ==> usable_nameserver(ip),
    decreases lines.len(),
{
    if lines.len() > 0 {
        lemma_first_nameserver_usable(lines.drop_last());
    }
}

/// The public name server that guests use where the host names none.
pub open spec fn fallback_dns() -> Ipv4Addr {
    Ipv4Addr { a: 8, b: 8, c: 8, d: 8 }
}

/// The resolver configuration of the host that is read first.
pub const FIRST_RESOLVER_CONFIG: &'static str = "/run/systemd/resolve/resolv.conf";

/// The resolver configuration of the host that is read where the first names no
/// server.
pub const SECOND_RESOLVER_CONFIG: &'static str = "/etc/resolv.conf";

/// The name server of guests, from the contents of two resolver configurations
/// of the host as far as they could be read; the first goes before the second.
pub open spec fn guest_dns(first: Option<Seq<char>>, second: Option<Seq<char>>) -> Ipv4Addr {
    if first is Some && nameserver_of(first->0) is Some {
        nameserver_of(first->0)->0
    } else if second is Some && nameserver_of(second->0) is Some {
        nameserver_of(second->0)->0
    } else {
        fallback_dns()
    }
}

/// Chooses the name server of guests.
pub fn resolve_guest_dns_server(first: Option<&str>, second: Option<&str>) -> (r: Ipv4Addr)
    ensures
        r == guest_dns(text::str_of(first), text::str_of(second)),
{
    match first {
        Some(contents) => match parse_nameserver_ipv4(contents) {
            Some(ip) => {
                return ip;
            },
            None => {},
        },
        None => {},
    }
    match second {
        Some(contents) => match parse_nameserver_ipv4(contents) {
            Some(ip) => {
                return ip;
            },
            None => {},
        },
        None => {},
    }
    Ipv4Addr::new(8, 8, 8, 8)
}

/// Guests are never given a name server that they cannot reach by its address:
/// neither a loopback address nor 0.0.0.0.
pub proof fn guest_dns_is_usable(first: Option<Seq<char>>, second: Option<Seq<char>>)
    ensures
        usable_nameserver(guest_dns(first, second)),
{
    if first is Some {
        lemma_first_nameserver_usable(text::split(first->0, '\n'));
    }
    if second is Some {
        lemma_first_nameserver_usable(text::split(second->0, '\n'));
    }
}

} // verus!

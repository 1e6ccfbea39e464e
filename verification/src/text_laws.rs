//! What reading text is for: words, lines, numbers and addresses are found where they
//! stand, and nothing else is.
use vstd::prelude::*;

use crate::ipv4;
use crate::ipv4::Ipv4Addr;
use crate::text;

verus! {

/// Nothing but whitespace.
pub open spec fn all_white(s: Seq<char>) -> bool {
    forall|i: int| 0 <= i < s.len() ==> text::white(#[trigger] s[i])
}

/// No whitespace.
pub open spec fn none_white(s: Seq<char>) -> bool {
    forall|i: int| 0 <= i < s.len() ==> !text::white(#[trigger] s[i])
}

/// Whitespace is what Unicode calls so, by its numbers.
pub proof fn whitespace_is_known_by_its_numbers(c: char)
    ensures
        text::white(c) <==> {
            let n = c as int;
            ||| n == 9 || n == 10 || n == 11 || n == 12 || n == 13 || n == 32
            ||| n == 133 || n == 160 || n == 5760
            ||| 8192 <= n <= 8202
            ||| n == 8232 || n == 8233 || n == 8239 || n == 8287 || n == 12288
        },
        'A' <= c && c <= 'Z' ==> text::ascii_lower_char(c) as int == c as int + 32,
        !('A' <= c && c <= 'Z') ==> text::ascii_lower_char(c) == c,
{
}

/// Trimming takes whitespace off both ends, all of it and nothing else.
pub proof fn trimming_takes_whitespace_off_both_ends(s: Seq<char>) -> (cut: (int, int))
    ensures
        0 <= cut.0 <= cut.1 <= s.len(),
        text::trimmed(s) == s.subrange(cut.0, cut.1),
        all_white(s.take(cut.0)),
        all_white(s.skip(cut.1)),
        cut.0 < cut.1 ==> !text::white(s[cut.0]) && !text::white(s[cut.1 - 1]),
        cut.0 == cut.1 ==> all_white(s),
{
    let a = lemma_trim_start(s);
    let t = text::trim_start(s);
    let n = lemma_trim_end(t);
    assert(t =~= s.skip(a));
    let b = a + n;
    assert(text::trimmed(s) =~= s.subrange(a, b));
    assert forall|i: int| 0 <= i < s.skip(b).len() implies text::white(#[trigger] s.skip(b)[i]) by {
        assert(s.skip(b)[i] == t.skip(n)[i]);
    }
    if a == b {
        assert forall|i: int| 0 <= i < s.len() implies text::white(#[trigger] s[i]) by {
            if i < a {
                assert(s.take(a)[i] == s[i]);
            } else {
                assert(s.skip(b)[i - b] == s[i]);
            }
        }
    } else {
        assert(t[0] == s[a]);
        assert(t[n - 1] == s[b - 1]);
    }
    (a, b)
}

proof fn lemma_trim_start(s: Seq<char>) -> (n: int)
    ensures
        0 <= n <= s.len(),
        text::trim_start(s) == s.skip(n),
        all_white(s.take(n)),
        n < s.len() ==> !text::white(s[n]),
    decreases s.len(),
{
    if s.len() > 0 && text::white(s[0]) {
        let m = lemma_trim_start(s.skip(1));
        assert(s.skip(1).skip(m) =~= s.skip(m + 1));
        assert forall|i: int| 0 <= i < m + 1 implies text::white(#[trigger] s.take(m + 1)[i]) by {
            if i > 0 {
                assert(s.skip(1).take(m)[i - 1] == s[i]);
            }
        }
        m + 1
    } else {
        assert(s.skip(0) =~= s);
        0
    }
}

proof fn lemma_trim_end(s: Seq<char>) -> (n: int)
    ensures
        0 <= n <= s.len(),
        text::trim_end(s) == s.take(n),
        all_white(s.skip(n)),
        n > 0 ==> !text::white(s[n - 1]),
        s.len() > 0 && !text::white(s[0]) ==> n > 0,
    decreases s.len(),
{
    if s.len() > 0 && text::white(s.last()) {
        let init = s.drop_last();
        let m = lemma_trim_end(init);
        assert(init.take(m) =~= s.take(m));
        assert forall|i: int| 0 <= i < s.skip(m).len() implies text::white(
            #[trigger] s.skip(m)[i],
        ) by {
            if m + i < init.len() {
                assert(init.skip(m)[i] == s[m + i]);
            }
        }
        m
    } else {
        assert(s.take(s.len() as int) =~= s);
        assert(s.skip(s.len() as int) =~= Seq::empty());
        s.len() as int
    }
}

/// A word behind whitespace, or at the beginning, is a further word; whitespace behind a
/// text makes none.
pub proof fn words_stand_between_whitespace(s: Seq<char>, word: Seq<char>, space: Seq<char>)
    requires
        s.len() == 0 || text::white(s.last()),
        word.len() > 0,
        none_white(word),
        all_white(space),
    ensures
        text::words(s + word) == text::words(s).push(word),
        text::words(s + word + space) == text::words(s).push(word),
        text::words(space) == Seq::<Seq<char>>::empty(),
{
    lemma_word(s, word);
    lemma_space(s + word, space);
    lemma_space(Seq::empty(), space);
    assert(Seq::<char>::empty() + space =~= space);
}

proof fn lemma_word(s: Seq<char>, word: Seq<char>)
    requires
        s.len() == 0 || text::white(s.last()),
        word.len() > 0,
        none_white(word),
    ensures
        text::words(s + word) == text::words(s).push(word),
    decreases word.len(),
{
    let whole = s + word;
    let init = word.drop_last();
    assert(whole.drop_last() =~= s + init);
    assert(whole.last() == word[word.len() - 1]);
    if init.len() == 0 {
        assert(s + init =~= s);
        assert(word =~= seq![word.last()]);
        if s.len() > 0 {
            assert(whole[whole.len() - 2] == s.last());
        }
    } else {
        assert forall|i: int| 0 <= i < init.len() implies !text::white(#[trigger] init[i]) by {
            assert(init[i] == word[i]);
        }
        lemma_word(s, init);
        assert(whole[whole.len() - 2] == word[word.len() - 2]);
        let before = text::words(s).push(init);
        assert(before.drop_last() =~= text::words(s));
        assert(init.push(word.last()) =~= word);
    }
}

proof fn lemma_space(s: Seq<char>, space: Seq<char>)
    requires
        all_white(space),
    ensures
        text::words(s + space) == text::words(s),
    decreases space.len(),
{
    let whole = s + space;
    if space.len() == 0 {
        assert(whole =~= s);
    } else {
        let init = space.drop_last();
        assert(whole.drop_last() =~= s + init);
        assert(whole.last() == space[space.len() - 1]);
        assert forall|i: int| 0 <= i < init.len() implies text::white(#[trigger] init[i]) by {
            assert(init[i] == space[i]);
        }
        lemma_space(s, init);
    }
}

/// A text occurs in another exactly where the other is made of it and what stands before
/// and behind it.
pub proof fn texts_occur_in_what_is_made_of_them(
    before: Seq<char>,
    needle: Seq<char>,
    behind: Seq<char>,
    hay: Seq<char>,
)
    ensures
        text::contains_text(before + needle + behind, needle),
        text::contains_text(hay, needle) ==> exists|i: int|
            0 <= i <= hay.len() - needle.len() && hay == hay.take(i) + needle + #[trigger] hay.skip(
                i + needle.len() as int,
            ),
{
    let whole = before + needle + behind;
    let at = before.len() as int;
    assert(whole.subrange(at, at + needle.len() as int) =~= needle);
    assert(text::occurs_at(whole, needle, at));
    if text::contains_text(hay, needle) {
        let i = choose|i: int| text::occurs_at(hay, needle, i);
        assert(hay =~= hay.take(i) + needle + hay.skip(i + needle.len() as int));
    }
}

/// A line behind a line break is a further piece, and a text without one is its only
/// piece.
pub proof fn lines_stand_between_breaks(s: Seq<char>, line: Seq<char>, sep: char)
    requires
        !line.contains(sep),
    ensures
        text::split(s + seq![sep] + line, sep) == text::split(s, sep).push(line),
        text::split(line, sep) == seq![line],
{
    text::lemma_split_after(s, sep, line);
    text::lemma_split_single(line, sep);
}

/// The number that decimal digits stand for, the last for units and each other for ten
/// times as much as the one behind it.
pub open spec fn decimal_value(s: Seq<char>) -> int
    decreases s.len(),
{
    if s.len() == 0 {
        0
    } else {
        decimal_value(s.drop_last()) * 10 + (s.last() as int - '0' as int)
    }
}

proof fn lemma_decimal(n: nat)
    ensures
        decimal_value(text::decimal(n)) == n,
        text::decimal(n).len() > 0,
        forall|i: int|
            0 <= i < text::decimal(n).len() ==> 48 <= #[trigger] text::decimal(n)[i] as int <= 57,
        n > 0 ==> text::decimal(n)[0] != '0',
        text::decimal(n).len() > 1 ==> n >= 10,
    decreases n,
{
    if n < 10 {
        assert(text::decimal(n).drop_last() =~= Seq::empty());
        reveal_with_fuel(decimal_value, 2);
    } else {
        lemma_decimal(n / 10);
        let before = text::decimal(n / 10);
        assert(text::decimal(n).drop_last() =~= before);
        assert(text::decimal(n)[0] == before[0]);
        assert forall|i: int| 0 <= i < text::decimal(n).len() implies 48 <= #[trigger] text::decimal(
            n,
        )[i] as int <= 57 by {
            if i < before.len() {
                assert(text::decimal(n)[i] == before[i]);
            }
        }
    }
}

/// Decimal numerals hold digits only, none of them superfluous, and stand for their
/// number; padding writes zeros before them, as many as are missing to the width.
pub proof fn decimal_numerals_are_read_by_tens(n: nat, width: nat, i: int)
    ensures
        decimal_value(text::decimal(n)) == n,
        0 <= i < text::decimal(n).len() ==> '0' <= text::decimal(n)[i] && text::decimal(n)[i]
            <= '9',
        text::decimal(n).len() > 0,
        text::decimal(n).len() > 1 ==> text::decimal(n)[0] != '0',
        ({
            let s = text::decimal(n);
            let padded = text::zero_padded(s, width);
            let missing = if s.len() < width {
                width - s.len()
            } else {
                0
            };
            &&& padded.len() == missing + s.len()
            &&& padded.skip(missing) == s
            &&& 0 <= i < missing ==> padded[i] == '0'
        }),
{
    lemma_decimal(n);
    let s = text::decimal(n);
    let missing = if s.len() < width {
        width - s.len()
    } else {
        0
    };
    assert(text::zero_padded(s, width).skip(missing) =~= s);
}

/// Numerals stand for their numbers: a negative one behind a minus sign, a hexadecimal
/// one, in lower case and without superfluous zeros, by its digits.
pub proof fn numerals_stand_for_their_numbers(n: nat, k: int, width: nat)
    ensures
        text::digits_value(text::decimal(n)) == n,
        text::decimal(n).len() > 1 ==> text::decimal(n)[0] != '0',
        k >= 0 ==> text::signed_decimal(k) == text::decimal(k as nat),
        k < 0 ==> text::signed_decimal(k) == seq!['-'] + text::decimal((-k) as nat),
        text::prefixed_hex(n) == seq!['0', 'x'] + text::hex(n),
        hex_value(text::hex(n)) == n,
        text::hex(n).len() > 1 ==> text::hex(n)[0] != '0',
        text::zero_padded(text::decimal(n), width).len() >= width,
        text::digits_value(text::zero_padded(text::decimal(n), width)) == n,
        text::decimal(n).len() >= width ==> text::zero_padded(text::decimal(n), width)
            == text::decimal(n),
{
    text::decimal_stands_for_its_number(n);
    text::padding_keeps_the_number(n, width);
    reveal_strlit("0x");
    assert("0x"@ =~= seq!['0', 'x']);
    lemma_hex(n);
}

/// The number that hexadecimal digits in lower case stand for.
pub open spec fn hex_value(s: Seq<char>) -> int
    decreases s.len(),
{
    if s.len() == 0 {
        0
    } else {
        let c = s.last() as int;
        16 * hex_value(s.drop_last()) + (if c >= 97 {
            c - 87
        } else {
            c - 48
        })
    }
}

proof fn lemma_hex(n: nat)
    ensures
        hex_value(text::hex(n)) == n,
        text::hex(n).len() > 0,
        n > 0 ==> text::hex(n)[0] != '0',
        text::hex(n).len() > 1 ==> n > 0,
    decreases n,
{
    if n < 16 {
        assert(text::hex(n).drop_last() =~= Seq::empty());
        reveal_with_fuel(hex_value, 2);
    } else {
        lemma_hex(n / 16);
        let before = text::hex(n / 16);
        assert(text::hex(n).drop_last() =~= before);
        assert(text::hex(n)[0] == before[0]);
    }
}

/// An address is written as its four numbers with dots between them, and read exactly
/// where it is written so.
pub proof fn addresses_are_read_as_they_are_written(ip: Ipv4Addr, s: Seq<char>)
    ensures
        ipv4::dotted(ip) == text::decimal(ip.a as nat) + seq!['.'] + text::decimal(ip.b as nat)
            + seq!['.'] + text::decimal(ip.c as nat) + seq!['.'] + text::decimal(ip.d as nat),
        ipv4::parsed(s) == Some(ip) <==> s == ipv4::dotted(ip),
        ipv4::parsed(s) is None <==> forall|x: Ipv4Addr| s != #[trigger] ipv4::dotted(x),
        ipv4::number(ip) == ip.a * 256 * 256 * 256 + ip.b * 256 * 256 + ip.c * 256 + ip.d,
{
    ipv4::lemma_dotted(ip);
    ipv4::parsing_undoes_writing(ip);
    if ipv4::parsed(s) == Some(ip) {
        let found = choose|x: Ipv4Addr| s == #[trigger] ipv4::dotted(x);
        assert(s == ipv4::dotted(found));
    }
}

/// A guest can use an address as its name server: it is not of the loopback network and
/// not 0.0.0.0.
pub open spec fn reachable(ip: Ipv4Addr) -> bool {
    ip.a != 127 && (ip.a != 0 || ip.b != 0 || ip.c != 0 || ip.d != 0)
}

/// A line names a name server exactly where, without whitespace at its ends, it is no
/// comment, its first word is `nameserver` and its second the text of an address that a
/// guest can use.
pub proof fn lines_name_a_server_by_word_and_address(line: Seq<char>, ip: Ipv4Addr)
    ensures
        ipv4::line_nameserver(line) == Some(ip) <==> {
            let t = text::trimmed(line);
            let w = text::words(t);
            &&& t.len() > 0 && t[0] != '#'
            &&& w.len() >= 2
            &&& w[0] == "nameserver"@
            &&& w[1] == ipv4::dotted(ip)
            &&& reachable(ip)
        },
{
    let w = text::words(text::trimmed(line));
    if w.len() >= 2 {
        addresses_are_read_as_they_are_written(ip, w[1]);
    }
}

/// The name server of a configuration is that of the first line that names one.
pub proof fn the_first_server_that_is_named_counts(contents: Seq<char>) -> (at: int)
    ensures
        ({
            let lines = text::split(contents, '\n');
            &&& 0 <= at <= lines.len()
            &&& forall|i: int| 0 <= i < at ==> ipv4::line_nameserver(#[trigger] lines[i]) is None
            &&& at < lines.len() ==> ipv4::line_nameserver(lines[at]) is Some
                && ipv4::nameserver_of(contents) == ipv4::line_nameserver(lines[at])
            &&& at == lines.len() ==> ipv4::nameserver_of(contents) is None
        }),
{
    lemma_first_server(text::split(contents, '\n'))
}

proof fn lemma_first_server(lines: Seq<Seq<char>>) -> (at: int)
    ensures
        0 <= at <= lines.len(),
        forall|i: int| 0 <= i < at ==> ipv4::line_nameserver(#[trigger] lines[i]) is None,
        at < lines.len() ==> ipv4::line_nameserver(lines[at]) is Some && ipv4::first_nameserver(
            lines,
        ) == ipv4::line_nameserver(lines[at]),
        at == lines.len() ==> ipv4::first_nameserver(lines) is None,
    decreases lines.len(),
{
    if lines.len() == 0 {
        0
    } else {
        let init = lines.drop_last();
        let at = lemma_first_server(init);
        assert forall|i: int| 0 <= i < at implies ipv4::line_nameserver(
            #[trigger] lines[i],
        ) is None by {
            assert(init[i] == lines[i]);
        }
        if at < init.len() {
            assert(init[at] == lines[at]);
            at
        } else if ipv4::line_nameserver(lines.last()) is Some {
            at
        } else {
            assert forall|i: int| 0 <= i < lines.len() implies ipv4::line_nameserver(
                #[trigger] lines[i],
            ) is None by {}
            lines.len() as int
        }
    }
}

/// Guests are given the server that the first configuration names, else that of the
/// second, else a public one. A configuration that could not be read names none.
pub proof fn guests_are_given_the_first_server_that_is_known(
    first: Option<Seq<char>>,
    second: Option<Seq<char>>,
)
    ensures
        ({
            let known = |c: Option<Seq<char>>| match c {
                Some(contents) => ipv4::nameserver_of(contents),
                None => None,
            };
            let given = ipv4::guest_dns(first, second);
            &&& known(first) matches Some(ip) ==> given == ip
            &&& known(first) is None ==> (known(second) matches Some(ip) ==> given == ip)
            &&& known(first) is None && known(second) is None ==> given == (Ipv4Addr {
                a: 8,
                b: 8,
                c: 8,
                d: 8,
            })
        }),
{
}

/// The views of texts are the texts themselves, in their order.
pub proof fn views_leave_nothing_out(v: Seq<String>, t: Option<String>, s: Option<&str>, i: int)
    ensures
        text::views(v).len() == v.len(),
        0 <= i < v.len() ==> text::views(v)[i] == v[i]@,
        text::text_of(t) is Some <==> t is Some,
        t is Some ==> text::text_of(t)->0 == t->0@,
        text::str_of(s) is Some <==> s is Some,
        s is Some ==> text::str_of(s)->0 == s->0@,
{
}

/// Lowering changes the letters of ASCII in upper case, each in its place, and no other
/// character.
pub proof fn lowering_goes_letter_by_letter(s: Seq<char>, i: int)
    ensures
        text::ascii_lower(s).len() == s.len(),
        0 <= i < s.len() ==> text::ascii_lower(s)[i] as int == s[i] as int + (if 65 <= s[i] as int
            <= 90 {
            32int
        } else {
            0
        }),
        text::blank(s) <==> all_white(s),
{
    let cut = trimming_takes_whitespace_off_both_ends(s);
    if cut.0 < cut.1 {
        assert(!text::white(s[cut.0]));
    }
}

} // verus!

//! Character-level operations on text, stated over sequences of characters.
use vstd::prelude::*;
use vstd::string::StrSliceExecFns;
use vstd::string::StringExecFns;

verus! {

/// `String::push` of the standard library: the character is appended at the
/// end and nothing else changes.
pub assume_specification[ String::push ](s: &mut String, c: char)
    ensures
        final(s)@ == old(s)@.push(c),
;

/// The text of bytes, with a replacement character for what is no UTF-8.
pub uninterp spec fn lossy_text(bytes: Seq<u8>) -> Seq<char>;

/// `String::from_utf8_lossy` of the standard library: the text is a function of
/// the bytes alone, and is called `lossy_text` here; valid UTF-8 is decoded as it
/// is. What becomes of invalid bytes is not said.
#[verifier::external_body]
pub(crate) fn from_utf8_lossy(bytes: &[u8]) -> (r: String)
    ensures
        r@ == lossy_text(bytes@),
        vstd::utf8::valid_utf8(bytes@) ==> r@ == vstd::utf8::decode_utf8(bytes@),
{
    String::from_utf8_lossy(bytes).into_owned()
}

/// The texts that a list of strings holds.
pub open spec fn views(v: Seq<String>) -> Seq<Seq<char>> {
    v.map_values(|s: String| s@)
}

/// The text of an optional string.
pub open spec fn text_of(s: Option<String>) -> Option<Seq<char>> {
    match s {
        Some(t) => Some(t@),
        None => None,
    }
}

/// The text of an optional string slice.
pub open spec fn str_of(s: Option<&str>) -> Option<Seq<char>> {
    match s {
        Some(t) => Some(t@),
        None => None,
    }
}

/// The characters with the Unicode property `White_Space`.
pub open spec fn white(c: char) -> bool {
    let n = c as u32;
    ||| 0x9 <= n <= 0xD
    ||| n == 0x20
    ||| n == 0x85
    ||| n == 0xA0
    ||| n == 0x1680
    ||| 0x2000 <= n <= 0x200A
    ||| n == 0x2028
    ||| n == 0x2029
    ||| n == 0x202F
    ||| n == 0x205F
    ||| n == 0x3000
}

pub fn is_whitespace(c: char) -> (r: bool)
    ensures
        r == white(c),
{
    let n: u32 = c as u32;
    (0x9 <= n && n <= 0xD) || n == 0x20 || n == 0x85 || n == 0xA0 || n == 0x1680 || (0x2000 <= n
        && n <= 0x200A) || n == 0x2028 || n == 0x2029 || n == 0x202F || n == 0x205F || n == 0x3000
}

/// `s` without its leading whitespace.
pub open spec fn trim_start(s: Seq<char>) -> Seq<char>
    decreases s.len(),
{
    if s.len() > 0 && white(s[0]) {
        trim_start(s.skip(1))
    } else {
        s
    }
}

/// `s` without its trailing whitespace.
pub open spec fn trim_end(s: Seq<char>) -> Seq<char>
    decreases s.len(),
{
    if s.len() > 0 && white(s.last()) {
        trim_end(s.drop_last())
    } else {
        s
    }
}

/// `s` without the whitespace at either end.
pub open spec fn trimmed(s: Seq<char>) -> Seq<char> {
    trim_end(trim_start(s))
}

/// The text holds nothing but whitespace.
pub open spec fn blank(s: Seq<char>) -> bool {
    trimmed(s).len() == 0
}

/// The characters of a string.
pub fn chars_of(s: &str) -> (v: Vec<char>)
    ensures
        v@ == s@,
{
    let mut v: Vec<char> = Vec::new();
    for c in it: s.chars()
        invariant
            v@ == s@.take(it.index() as int),
            it.seq() == s@,
    {
        v.push(c);
        assert(v@ =~= s@.take(it.index() + 1));
    }
    assert(s@.take(s@.len() as int) =~= s@);
    v
}

/// The string made of the characters `v[from..to]`.
pub fn string_of(v: &[char], from: usize, to: usize) -> (s: String)
    requires
        from <= to <= v@.len(),
    ensures
        s@ == v@.subrange(from as int, to as int),
{
    let mut s = String::new();
    let mut i: usize = from;
    while i < to
        invariant
            from <= i <= to <= v@.len(),
            s@ == v@.subrange(from as int, i as int),
        decreases to - i,
    {
        s.push(v[i]);
        i += 1;
        assert(s@ =~= v@.subrange(from as int, i as int));
    }
    s
}

pub fn trim(s: &str) -> (r: String)
    ensures
        r@ == trimmed(s@),
{
    let v = chars_of(s);
    let mut from: usize = 0;
    assert(v@.skip(0) =~= v@);
    while from < v.len() && is_whitespace(v[from])
        invariant
            from <= v.len(),
            trim_start(v@.skip(from as int)) == trim_start(v@),
        decreases v.len() - from,
    {
        assert(v@.skip(from as int).skip(1) =~= v@.skip(from + 1));
        from += 1;
    }
    let mut to: usize = v.len();
    let ghost head = v@.skip(from as int);
    assert(head =~= v@.subrange(from as int, to as int));
    assert(trim_start(head) == head);
    while from < to && is_whitespace(v[to - 1])
        invariant
            from <= to <= v.len(),
            trim_end(v@.subrange(from as int, to as int)) == trim_end(head),
        decreases to,
    {
        assert(v@.subrange(from as int, to as int).drop_last() =~= v@.subrange(
            from as int,
            to - 1,
        ));
        to -= 1;
    }
    string_of(v.as_slice(), from, to)
}

/// Whether two strings hold the same characters.
pub fn same(a: &str, b: &str) -> (r: bool)
    ensures
        r == (a@ == b@),
{
    let x = chars_of(a);
    let y = chars_of(b);
    if x.len() != y.len() {
        return false;
    }
    let mut i: usize = 0;
    while i < x.len()
        invariant
            i <= x.len() == y.len(),
            x@ == a@,
            y@ == b@,
            forall|k: int| 0 <= k < i ==> x@[k] == y@[k],
        decreases x.len() - i,
    {
        if x[i] != y[i] {
            return false;
        }
        i += 1;
    }
    assert(a@ =~= b@);
    true
}

/// `needle` stands in `hay` at index `i`.
pub open spec fn occurs_at(hay: Seq<char>, needle: Seq<char>, i: int) -> bool {
    0 <= i && i + needle.len() <= hay.len() && hay.subrange(i, i + needle.len() as int) == needle
}

/// `needle` stands somewhere in `hay`.
pub open spec fn contains_text(hay: Seq<char>, needle: Seq<char>) -> bool {
    exists|i: int| occurs_at(hay, needle, i)
}

fn occurs(hay: &Vec<char>, needle: &Vec<char>, at: usize) -> (r: bool)
    requires
        at + needle@.len() <= hay@.len(),
    ensures
        r == occurs_at(hay@, needle@, at as int),
{
    let mut k: usize = 0;
    while k < needle.len()
        invariant
            k <= needle.len(),
            at + needle@.len() <= hay.len(),
            forall|j: int| 0 <= j < k ==> hay@[at + j] == needle@[j],
        decreases needle.len() - k,
    {
        if hay[at + k] != needle[k] {
            assert(hay@.subrange(at as int, at + needle@.len() as int)[k as int] != needle@[k as int]);
            return false;
        }
        k += 1;
    }
    assert(hay@.subrange(at as int, at + needle@.len() as int) =~= needle@);
    true
}

/// Whether `needle` stands somewhere in `hay`.
pub fn contains(hay: &str, needle: &str) -> (r: bool)
    ensures
        r == contains_text(hay@, needle@),
{
    let h = chars_of(hay);
    let n = chars_of(needle);
    if n.len() > h.len() {
        return false;
    }
    let last: usize = h.len() - n.len();
    let mut i: usize = 0;
    loop
        invariant
            h@ == hay@,
            n@ == needle@,
            i <= last,
            last + n@.len() == h@.len(),
            forall|k: int| 0 <= k < i ==> !occurs_at(h@, n@, k),
        decreases last - i,
    {
        if occurs(&h, &n, i) {
            return true;
        }
        if i == last {
            return false;
        }
        i += 1;
    }
}

/// The pieces of `s` between the occurrences of `sep`; there is one more piece
/// than there are separators.
pub open spec fn split(s: Seq<char>, sep: char) -> Seq<Seq<char>>
    decreases s.len(),
{
    if s.len() == 0 {
        seq![Seq::<char>::empty()]
    } else {
        let before = split(s.drop_last(), sep);
        if s.last() == sep {
            before.push(Seq::<char>::empty())
        } else {
            before.drop_last().push(before.last().push(s.last()))
        }
    }
}

pub proof fn lemma_split_nonempty(s: Seq<char>, sep: char)
    ensures
        split(s, sep).len() >= 1,
    decreases s.len(),
{
    if s.len() > 0 {
        lemma_split_nonempty(s.drop_last(), sep);
    }
}

/// Splitting after a separator: what stands before it is split on its own, and
/// what stands after it, without another separator, is the last piece.
pub proof fn lemma_split_after(a: Seq<char>, sep: char, b: Seq<char>)
    requires
        !b.contains(sep),
    ensures
        split(a + seq![sep] + b, sep) == split(a, sep).push(b),
    decreases b.len(),
{
    let s = a + seq![sep] + b;
    if b.len() == 0 {
        assert(s.drop_last() =~= a);
        assert(b =~= Seq::empty());
    } else {
        assert(s.drop_last() =~= a + seq![sep] + b.drop_last());
        assert forall|c: char| b.drop_last().contains(c) implies b.contains(c) by {
            let k = choose|k: int| 0 <= k < b.drop_last().len() && b.drop_last()[k] == c;
            assert(b[k] == c);
        }
        lemma_split_after(a, sep, b.drop_last());
        assert(b.contains(b.last()));
        assert(b.drop_last().push(b.last()) =~= b);
        let before = split(a, sep).push(b.drop_last());
        assert(before.drop_last() =~= split(a, sep));
    }
}

/// A text without a separator is its only piece.
pub proof fn lemma_split_single(b: Seq<char>, sep: char)
    requires
        !b.contains(sep),
    ensures
        split(b, sep) == seq![b],
    decreases b.len(),
{
    if b.len() == 0 {
        assert(b =~= Seq::empty());
    } else {
        assert forall|c: char| b.drop_last().contains(c) implies b.contains(c) by {
            let k = choose|k: int| 0 <= k < b.drop_last().len() && b.drop_last()[k] == c;
            assert(b[k] == c);
        }
        lemma_split_single(b.drop_last(), sep);
        assert(b.contains(b.last()));
        assert(b.drop_last().push(b.last()) =~= b);
        assert(split(b, sep) =~= seq![b]);
    }
}

/// Texts with a separator between each two of them.
pub open spec fn joined(parts: Seq<Seq<char>>, sep: char) -> Seq<char>
    decreases parts.len(),
{
    if parts.len() == 0 {
        Seq::empty()
    } else if parts.len() == 1 {
        parts[0]
    } else {
        joined(parts.drop_last(), sep) + seq![sep] + parts.last()
    }
}

/// Joining the pieces of a text gives the text back.
pub proof fn joining_undoes_splitting(s: Seq<char>, sep: char)
    ensures
        joined(split(s, sep), sep) == s,
    decreases s.len(),
{
    lemma_split_nonempty(s, sep);
    if s.len() == 0 {
        assert(split(s, sep)[0] =~= s);
    } else {
        let init = s.drop_last();
        let before = split(init, sep);
        joining_undoes_splitting(init, sep);
        lemma_split_nonempty(init, sep);
        assert(s =~= init.push(s.last()));
        if s.last() == sep {
            assert(split(s, sep).drop_last() =~= before);
            assert(joined(split(s, sep), sep) =~= init + seq![sep] + Seq::<char>::empty());
            assert(joined(split(s, sep), sep) =~= s);
        } else {
            let after = split(s, sep);
            assert(after.drop_last() =~= before.drop_last());
            assert(after.last() == before.last().push(s.last()));
            if before.len() == 1 {
                assert(after.len() == 1);
                assert(joined(after, sep) =~= s);
            } else {
                assert(joined(after, sep) =~= joined(before, sep).push(s.last()));
            }
        }
    }
}

/// Splits a string at every occurrence of `sep`.
pub fn split_at_char(s: &str, sep: char) -> (r: Vec<String>)
    ensures
        views(r@) == split(s@, sep),
{
    let v = chars_of(s);
    let mut done: Vec<String> = Vec::new();
    let mut piece = String::new();
    let mut i: usize = 0;
    assert(v@.take(0) =~= Seq::<char>::empty());
    assert(views(done@).push(piece@) =~= split(v@.take(0), sep));
    while i < v.len()
        invariant
            i <= v.len(),
            views(done@).push(piece@) == split(v@.take(i as int), sep),
        decreases v.len() - i,
    {
        let c = v[i];
        let ghost before = views(done@).push(piece@);
        assert(before.drop_last() =~= views(done@));
        assert(v@.take(i + 1).drop_last() =~= v@.take(i as int));
        if c == sep {
            let ghost old_done = done@;
            let ghost old_piece = piece;
            done.push(piece);
            piece = String::new();
            assert(views(done@) =~= views(old_done).push(old_piece@));
            assert(piece@ =~= Seq::<char>::empty());
        } else {
            piece.push(c);
        }
        i += 1;
    }
    let ghost old_done = done@;
    done.push(piece);
    assert(views(done@) =~= views(old_done).push(piece@));
    assert(v@.take(v@.len() as int) =~= v@);
    done
}

/// The words of `s`: its longest runs of characters that are not whitespace.
pub open spec fn words(s: Seq<char>) -> Seq<Seq<char>>
    decreases s.len(),
{
    if s.len() == 0 {
        Seq::empty()
    } else {
        let before = words(s.drop_last());
        if white(s.last()) {
            before
        } else if s.len() >= 2 && !white(s[s.len() - 2]) {
            before.drop_last().push(before.last().push(s.last()))
        } else {
            before.push(seq![s.last()])
        }
    }
}

/// Splits a string at its whitespace.
pub fn split_whitespace(s: &str) -> (r: Vec<String>)
    ensures
        views(r@) == words(s@),
{
    let v = chars_of(s);
    let mut done: Vec<String> = Vec::new();
    let mut i: usize = 0;
    assert(views(done@) =~= words(v@.take(0)));
    while i < v.len()
        invariant
            i <= v.len(),
            views(done@) == words(v@.take(i as int)),
            i > 0 && !white(v@[i - 1]) ==> done@.len() > 0,
        decreases v.len() - i,
    {
        let c = v[i];
        assert(v@.take(i + 1).drop_last() =~= v@.take(i as int));
        let ghost old_done = done@;
        if !is_whitespace(c) {
            if i > 0 && !is_whitespace(v[i - 1]) {
                match done.pop() {
                    Some(mut word) => {
                        let ghost old_word = word;
                        word.push(c);
                        done.push(word);
                        assert(views(done@) =~= views(old_done).drop_last().push(
                            old_word@.push(c),
                        ));
                    },
                    None => {},
                }
            } else {
                let mut word = String::new();
                word.push(c);
                assert(word@ =~= seq![c]);
                done.push(word);
                assert(views(done@) =~= views(old_done).push(seq![c]));
            }
        }
        i += 1;
    }
    assert(v@.take(v@.len() as int) =~= v@);
    done
}

/// The lower-case letter of an ASCII upper-case letter; any other character is
/// its own.
pub open spec fn ascii_lower_char(c: char) -> char {
    if 'A' <= c && c <= 'Z' {
        ((c as u8) + 32) as char
    } else {
        c
    }
}

pub open spec fn ascii_lower(s: Seq<char>) -> Seq<char> {
    s.map_values(|c: char| ascii_lower_char(c))
}

proof fn lemma_lower_start(s: Seq<char>)
    ensures
        trim_start(ascii_lower(s)) == ascii_lower(trim_start(s)),
    decreases s.len(),
{
    if s.len() > 0 {
        assert(ascii_lower(s)[0] == ascii_lower_char(s[0]));
        assert(white(ascii_lower_char(s[0])) == white(s[0]));
        if white(s[0]) {
            assert(ascii_lower(s).skip(1) =~= ascii_lower(s.skip(1)));
            lemma_lower_start(s.skip(1));
        }
    }
}

proof fn lemma_lower_end(s: Seq<char>)
    ensures
        trim_end(ascii_lower(s)) == ascii_lower(trim_end(s)),
    decreases s.len(),
{
    if s.len() > 0 {
        assert(ascii_lower(s).last() == ascii_lower_char(s.last()));
        assert(white(ascii_lower_char(s.last())) == white(s.last()));
        if white(s.last()) {
            assert(ascii_lower(s).drop_last() =~= ascii_lower(s.drop_last()));
            lemma_lower_end(s.drop_last());
        }
    }
}

/// Lowering twice is lowering once, also where the text is trimmed in between.
pub proof fn lemma_lowering_and_trimming(s: Seq<char>)
    ensures
        ascii_lower(trimmed(ascii_lower(s))) == ascii_lower(trimmed(s)),
{
    lemma_lower_start(s);
    lemma_lower_end(trim_start(s));
    let t = trimmed(s);
    assert(trimmed(ascii_lower(s)) == ascii_lower(t));
    assert(ascii_lower(ascii_lower(t)) =~= ascii_lower(t));
}

/// Turns the ASCII upper-case letters of a string into lower case.
pub fn to_ascii_lowercase(s: &str) -> (r: String)
    ensures
        r@ == ascii_lower(s@),
{
    let v = chars_of(s);
    let mut r = String::new();
    let mut i: usize = 0;
    while i < v.len()
        invariant
            i <= v.len(),
            r@ == ascii_lower(v@.take(i as int)),
        decreases v.len() - i,
    {
        let c = v[i];
        if 'A' <= c && c <= 'Z' {
            let b: u8 = c as u8;
            r.push((b + 32) as char);
        } else {
            r.push(c);
        }
        i += 1;
        assert(r@ =~= ascii_lower(v@.take(i as int)));
    }
    assert(v@.take(v@.len() as int) =~= v@);
    r
}

/// The decimal digit of a number below ten.
pub open spec fn digit(d: nat) -> char {
    (48 + d) as char
}

/// The decimal numeral of `n`, without leading zeros.
pub open spec fn decimal(n: nat) -> Seq<char>
    decreases n,
{
    if n < 10 {
        seq![digit(n)]
    } else {
        decimal(n / 10).push(digit(n % 10))
    }
}

pub fn decimal_of(n: u64) -> (r: String)
    ensures
        r@ == decimal(n as nat),
{
    decimal_of_u128(n as u128)
}

pub fn decimal_of_u128(n: u128) -> (r: String)
    ensures
        r@ == decimal(n as nat),
    decreases n,
{
    if n < 10 {
        let mut r = String::new();
        r.push((48 + n as u8) as char);
        assert(r@ =~= decimal(n as nat));
        r
    } else {
        let mut r = decimal_of_u128(n / 10);
        r.push((48 + (n % 10) as u8) as char);
        r
    }
}

/// The number that a sequence of decimal digits stands for.
pub open spec fn digits_value(s: Seq<char>) -> int
    decreases s.len(),
{
    if s.len() == 0 {
        0
    } else {
        10 * digits_value(s.drop_last()) + (s.last() as int - 48)
    }
}

/// Every character is a decimal digit.
pub open spec fn all_digits(s: Seq<char>) -> bool {
    forall|i: int| 0 <= i < s.len() ==> '0' <= #[trigger] s[i] && s[i] <= '9'
}

/// A numeral consists of digits, has no superfluous zero, and stands for its
/// number.
pub proof fn decimal_stands_for_its_number(n: nat)
    ensures
        digits_value(decimal(n)) == n,
        decimal(n).len() > 0,
        all_digits(decimal(n)),
        decimal(n).len() > 1 ==> decimal(n)[0] != '0',
    decreases n,
{
    if n < 10 {
        assert(decimal(n).drop_last() =~= Seq::empty());
        reveal_with_fuel(digits_value, 2);
    } else {
        decimal_stands_for_its_number(n / 10);
        let before = decimal(n / 10);
        assert(decimal(n).drop_last() =~= before);
        assert forall|i: int| 0 <= i < decimal(n).len() implies '0' <= #[trigger] decimal(n)[i]
            && decimal(n)[i] <= '9' by {
            if i < before.len() {
                assert(decimal(n)[i] == before[i]);
            }
        }
        if before.len() == 1 {
            reveal_with_fuel(digits_value, 2);
            assert(before.drop_last() =~= Seq::empty());
            assert(digits_value(before) == before[0] as int - 48);
        }
        assert(decimal(n)[0] == before[0]);
    }
}

/// Different numbers have different numerals.
pub proof fn decimal_is_injective(a: nat, b: nat)
    requires
        decimal(a) == decimal(b),
    ensures
        a == b,
{
    decimal_stands_for_its_number(a);
    decimal_stands_for_its_number(b);
}

/// Digits without a superfluous zero are the numeral of the number that they
/// stand for.
pub proof fn lemma_canonical_digits(s: Seq<char>)
    requires
        s.len() > 0,
        all_digits(s),
        s.len() > 1 ==> s[0] != '0',
    ensures
        digits_value(s) >= 0,
        s.len() > 1 || s[0] != '0' ==> digits_value(s) >= 1,
        decimal(digits_value(s) as nat) == s,
    decreases s.len(),
{
    let init = s.drop_last();
    let d = s.last() as int - 48;
    assert('0' <= s[s.len() - 1] && s[s.len() - 1] <= '9');
    if s.len() == 1 {
        reveal_with_fuel(digits_value, 2);
        assert(init =~= Seq::empty());
        assert(digits_value(s) == d);
        assert(decimal(d as nat) =~= s);
    } else {
        assert forall|i: int| 0 <= i < init.len() implies '0' <= #[trigger] init[i] && init[i]
            <= '9' by {
            assert(init[i] == s[i]);
        }
        assert(init[0] == s[0]);
        lemma_canonical_digits(init);
        let v = digits_value(init);
        assert(v >= 1);
        let n = (10 * v + d) as nat;
        assert(n / 10 == v);
        assert(n % 10 == d);
        assert(init.push(s.last()) =~= s);
    }
}

/// Zeros in front do not change the number.
proof fn lemma_leading_zeros(k: nat, s: Seq<char>)
    ensures
        digits_value(Seq::new(k, |i: int| '0') + s) == digits_value(s),
    decreases k + s.len(),
{
    let zeros = Seq::new(k, |i: int| '0');
    let all = zeros + s;
    if s.len() > 0 {
        lemma_leading_zeros(k, s.drop_last());
        assert(all.drop_last() =~= zeros + s.drop_last());
    } else if k > 0 {
        assert(all.drop_last() =~= Seq::new((k - 1) as nat, |i: int| '0') + s);
        lemma_leading_zeros((k - 1) as nat, s);
        assert(all.last() == '0');
    } else {
        assert(all =~= s);
    }
}

/// A padded numeral stands for the same number.
pub proof fn padding_keeps_the_number(n: nat, width: nat)
    ensures
        digits_value(zero_padded(decimal(n), width)) == n,
{
    decimal_stands_for_its_number(n);
    if decimal(n).len() < width {
        lemma_leading_zeros((width - decimal(n).len()) as nat, decimal(n));
    }
}

/// The decimal numeral of `n`, after a minus sign where `n` is negative.
pub open spec fn signed_decimal(n: int) -> Seq<char> {
    if n < 0 {
        seq!['-'] + decimal((-n) as nat)
    } else {
        decimal(n as nat)
    }
}

pub fn signed_decimal_of(n: i64) -> (r: String)
    ensures
        r@ == signed_decimal(n as int),
{
    if n < 0 {
        let magnitude: u64 = (-(n + 1)) as u64 + 1;
        let mut r = String::new();
        r.push('-');
        let digits = decimal_of(magnitude);
        r.append(digits.as_str());
        assert(r@ =~= signed_decimal(n as int));
        r
    } else {
        decimal_of(n as u64)
    }
}

/// The hexadecimal digit of a number below sixteen.
pub open spec fn hex_digit(d: nat) -> char {
    if d < 10 {
        (48 + d) as char
    } else {
        (87 + d) as char
    }
}

/// The hexadecimal numeral of `n` in lower case, without leading zeros.
pub open spec fn hex(n: nat) -> Seq<char>
    decreases n,
{
    if n < 16 {
        seq![hex_digit(n)]
    } else {
        hex(n / 16).push(hex_digit(n % 16))
    }
}

fn hex_of(n: u64) -> (r: String)
    ensures
        r@ == hex(n as nat),
    decreases n,
{
    let last: u8 = (n % 16) as u8;
    let c: char = if last < 10 {
        (48 + last) as char
    } else {
        (87 + last) as char
    };
    if n < 16 {
        let mut r = String::new();
        r.push(c);
        assert(r@ =~= hex(n as nat));
        r
    } else {
        let mut r = hex_of(n / 16);
        r.push(c);
        r
    }
}

/// The hexadecimal numeral of `n` after `0x`.
pub open spec fn prefixed_hex(n: nat) -> Seq<char> {
    "0x"@ + hex(n)
}

pub fn prefixed_hex_of(n: u64) -> (r: String)
    ensures
        r@ == prefixed_hex(n as nat),
{
    concat("0x", hex_of(n).as_str())
}

/// `s` filled up with zeros on the left to at least `width` characters.
pub open spec fn zero_padded(s: Seq<char>, width: nat) -> Seq<char> {
    if s.len() >= width {
        s
    } else {
        Seq::new((width - s.len()) as nat, |i: int| '0') + s
    }
}

pub fn zero_pad(s: &str, width: usize) -> (r: String)
    ensures
        r@ == zero_padded(s@, width as nat),
{
    let len: usize = s.unicode_len();
    let mut r = String::new();
    if len < width {
        let missing: usize = width - len;
        let mut i: usize = 0;
        while i < missing
            invariant
                i <= missing,
                r@ == Seq::new(i as nat, |k: int| '0'),
            decreases missing - i,
        {
            r.push('0');
            i += 1;
            assert(r@ =~= Seq::new(i as nat, |k: int| '0'));
        }
    }
    r.append(s);
    assert(r@ =~= zero_padded(s@, width as nat));
    r
}

/// Two strings, one after the other.
pub fn concat(a: &str, b: &str) -> (r: String)
    ensures
        r@ == a@ + b@,
{
    let mut r = a.to_owned();
    r.append(b);
    r
}

/// Three strings, one after the other.
pub fn concat3(a: &str, b: &str, c: &str) -> (r: String)
    ensures
        r@ == a@ + b@ + c@,
{
    let mut r = a.to_owned();
    r.append(b);
    r.append(c);
    r
}

} // verus!

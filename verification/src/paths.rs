//! Unix paths as text, read lexically: no function here looks at a file system.
use vstd::prelude::*;
use vstd::string::StringExecFns;

use crate::text;

verus! {

/// A path that starts at the root.
pub open spec fn absolute(p: Seq<char>) -> bool {
    p.len() > 0 && p[0] == '/'
}

/// A piece between slashes that names something: neither empty nor `.`.
pub open spec fn named(piece: Seq<char>) -> bool {
    piece.len() > 0 && piece != seq!['.']
}

/// The pieces that name something, in order.
pub open spec fn keep_named(pieces: Seq<Seq<char>>) -> Seq<Seq<char>>
    decreases pieces.len(),
{
    if pieces.len() == 0 {
        pieces
    } else {
        let before = keep_named(pieces.drop_last());
        if named(pieces.last()) {
            before.push(pieces.last())
        } else {
            before
        }
    }
}

/// The names along a path; `..` counts as a name, empty pieces and `.` do not.
pub open spec fn names(p: Seq<char>) -> Seq<Seq<char>> {
    keep_named(text::split(p, '/'))
}

/// The components of a path: the root, or a leading `.`, and then the names.
pub open spec fn components(p: Seq<char>) -> Seq<Seq<char>> {
    if absolute(p) {
        seq![seq!['/']] + names(p)
    } else if text::split(p, '/')[0] == seq!['.'] {
        seq![seq!['.']] + names(p)
    } else {
        names(p)
    }
}

/// `p` is `prefix` or lies below it, component by component.
pub open spec fn lies_under(p: Seq<char>, prefix: Seq<char>) -> bool {
    components(prefix).is_prefix_of(components(p))
}

/// One step of a walk: `..` goes up where it can, any other name goes down.
pub open spec fn step(at: Seq<Seq<char>>, name: Seq<char>) -> Seq<Seq<char>> {
    if name == seq!['.', '.'] {
        if at.len() > 0 {
            at.drop_last()
        } else {
            at
        }
    } else {
        at.push(name)
    }
}

/// Where a walk along `along` ends that begins at `at`.
pub open spec fn walk(at: Seq<Seq<char>>, along: Seq<Seq<char>>) -> Seq<Seq<char>>
    decreases along.len(),
{
    if along.len() == 0 {
        at
    } else {
        step(walk(at, along.drop_last()), along.last())
    }
}

/// Names separated by slashes.
pub open spec fn slashed(ns: Seq<Seq<char>>) -> Seq<char> {
    text::joined(ns, '/')
}

/// The path text of a list of names, from the root or relative.
pub open spec fn rendered(from_root: bool, ns: Seq<Seq<char>>) -> Seq<char> {
    if from_root {
        seq!['/'] + slashed(ns)
    } else {
        slashed(ns)
    }
}

/// The text of a path with `.`, `..` and superfluous slashes resolved.
pub open spec fn normalized(p: Seq<char>) -> Seq<char> {
    rendered(absolute(p), walk(Seq::empty(), names(p)))
}

/// The text that joining `p` to `base` gives: an absolute `p` stands alone,
/// any other follows `base` after one slash.
pub open spec fn join_of(base: Seq<char>, p: Seq<char>) -> Seq<char> {
    if absolute(p) {
        p
    } else if base.len() == 0 || base.last() == '/' {
        base + p
    } else {
        base + seq!['/'] + p
    }
}

pub fn is_absolute(p: &str) -> (r: bool)
    ensures
        r == absolute(p@),
{
    let v = text::chars_of(p);
    v.len() > 0 && v[0] == '/'
}

pub fn join(base: &str, p: &str) -> (r: String)
    ensures
        r@ == join_of(base@, p@),
{
    if is_absolute(p) {
        return p.to_owned();
    }
    let v = text::chars_of(base);
    let mut r = base.to_owned();
    if v.len() > 0 && v[v.len() - 1] != '/' {
        r.push('/');
        assert(r@ =~= base@ + seq!['/']);
    }
    r.append(p);
    r
}

fn is_named(piece: &str) -> (r: bool)
    ensures
        r == named(piece@),
{
    proof {
        reveal_strlit(".");
    }
    assert("."@ =~= seq!['.']);
    !piece.is_empty() && !text::same(piece, ".")
}

/// The names along a path.
pub fn names_of(p: &str) -> (r: Vec<String>)
    ensures
        text::views(r@) == names(p@),
{
    let pieces = text::split_at_char(p, '/');
    let ghost all = text::views(pieces@);
    let mut r: Vec<String> = Vec::new();
    let mut i: usize = 0;
    assert(text::views(r@) =~= keep_named(all.take(0)));
    while i < pieces.len()
        invariant
            i <= pieces.len(),
            all == text::views(pieces@),
            text::views(r@) == keep_named(all.take(i as int)),
        decreases pieces.len() - i,
    {
        assert(all.take(i + 1).drop_last() =~= all.take(i as int));
        if is_named(pieces[i].as_str()) {
            let ghost before = r@;
            r.push(pieces[i].clone());
            assert(text::views(r@) =~= text::views(before).push(all[i as int]));
        }
        i += 1;
    }
    assert(all.take(all.len() as int) =~= all);
    r
}

/// Walks along `along`, beginning at `at`.
fn walk_along(at: Vec<String>, along: &Vec<String>) -> (r: Vec<String>)
    ensures
        text::views(r@) == walk(text::views(at@), text::views(along@)),
{
    let ghost start = text::views(at@);
    let ghost all = text::views(along@);
    let mut r = at;
    let mut i: usize = 0;
    assert(all.take(0) =~= Seq::empty());
    while i < along.len()
        invariant
            i <= along.len(),
            all == text::views(along@),
            text::views(r@) == walk(start, all.take(i as int)),
        decreases along.len() - i,
    {
        assert(all.take(i + 1).drop_last() =~= all.take(i as int));
        let ghost before = r@;
        proof {
            reveal_strlit("..");
        }
        assert(".."@ =~= seq!['.', '.']);
        if text::same(along[i].as_str(), "..") {
            if r.len() > 0 {
                let _ = r.pop();
                assert(text::views(r@) =~= text::views(before).drop_last());
            }
        } else {
            r.push(along[i].clone());
            assert(text::views(r@) =~= text::views(before).push(all[i as int]));
        }
        i += 1;
    }
    assert(all.take(all.len() as int) =~= all);
    r
}

/// Writes a list of names as a path.
fn render(from_root: bool, ns: &Vec<String>) -> (r: String)
    ensures
        r@ == rendered(from_root, text::views(ns@)),
{
    let ghost all = text::views(ns@);
    let mut r = String::new();
    let ghost mut lead: Seq<char> = Seq::empty();
    if from_root {
        r.push('/');
        proof {
            lead = seq!['/'];
        }
    }
    let mut i: usize = 0;
    assert(all.take(0) =~= Seq::empty());
    assert(r@ =~= lead + slashed(all.take(0)));
    while i < ns.len()
        invariant
            i <= ns.len(),
            all == text::views(ns@),
            r@ == lead + slashed(all.take(i as int)),
        decreases ns.len() - i,
    {
        assert(all.take(i + 1).drop_last() =~= all.take(i as int));
        if i > 0 {
            r.push('/');
        }
        r.append(ns[i].as_str());
        i += 1;
        assert(r@ =~= lead + slashed(all.take(i as int)));
    }
    assert(all.take(all.len() as int) =~= all);
    assert(r@ =~= rendered(from_root, all));
    r
}

/// Resolves `.`, `..` and superfluous slashes of a path by its text alone: a
/// `..` takes away the name before it, and is dropped where there is none.
pub fn lexically_normalize_path(path: &str) -> (r: String)
    ensures
        r@ == normalized(path@),
{
    let ns = names_of(path);
    let empty: Vec<String> = Vec::new();
    assert(text::views(empty@) =~= Seq::empty());
    let end = walk_along(empty, &ns);
    render(is_absolute(path), &end)
}

/// The components of a path.
pub fn components_of(p: &str) -> (r: Vec<String>)
    ensures
        text::views(r@) == components(p@),
{
    let mut r: Vec<String> = Vec::new();
    let pieces = text::split_at_char(p, '/');
    proof {
        text::lemma_split_nonempty(p@, '/');
        reveal_strlit("/");
        reveal_strlit(".");
    }
    assert(text::views(pieces@).len() == pieces@.len());
    assert("/"@ =~= seq!['/']);
    assert("."@ =~= seq!['.']);
    assert(text::views(r@) =~= Seq::empty());
    if is_absolute(p) {
        r.push("/".to_owned());
        assert(text::views(r@) =~= seq![seq!['/']]);
    } else if text::same(pieces[0].as_str(), ".") {
        r.push(".".to_owned());
        assert(text::views(r@) =~= seq![seq!['.']]);
    }
    let mut rest = names_of(p);
    let ghost head = r@;
    let ghost tail = rest@;
    r.append(&mut rest);
    assert(text::views(r@) =~= text::views(head) + text::views(tail));
    assert(text::views(r@) =~= components(p@));
    r
}

/// Whether two lists of strings hold the same texts.
fn same_texts(a: &Vec<String>, b: &Vec<String>, n: usize) -> (r: bool)
    requires
        n <= a@.len(),
        n <= b@.len(),
    ensures
        r == (text::views(a@).take(n as int) == text::views(b@).take(n as int)),
{
    let mut i: usize = 0;
    while i < n
        invariant
            i <= n <= a@.len(),
            n <= b@.len(),
            forall|k: int| 0 <= k < i ==> a@[k]@ == b@[k]@,
        decreases n - i,
    {
        if !text::same(a[i].as_str(), b[i].as_str()) {
            assert(text::views(a@).take(n as int)[i as int] != text::views(b@).take(n as int)[i as int]);
            return false;
        }
        i += 1;
    }
    assert(text::views(a@).take(n as int) =~= text::views(b@).take(n as int));
    true
}

/// Whether a path is `prefix` or lies below it, component by component.
pub fn starts_with(p: &str, prefix: &str) -> (r: bool)
    ensures
        r == lies_under(p@, prefix@),
{
    let a = components_of(p);
    let b = components_of(prefix);
    if b.len() > a.len() {
        return false;
    }
    let r = same_texts(&a, &b, b.len());
    assert(text::views(b@).take(b@.len() as int) =~= text::views(b@));
    r
}

/// Whether two paths have the same components.
pub fn same_path(p: &str, q: &str) -> (r: bool)
    ensures
        r == (components(p@) == components(q@)),
{
    let a = components_of(p);
    let b = components_of(q);
    assert(text::views(a@).len() == a@.len());
    assert(text::views(b@).len() == b@.len());
    if b.len() != a.len() {
        return false;
    }
    let r = same_texts(&a, &b, b.len());
    assert(text::views(a@).take(b@.len() as int) =~= text::views(a@));
    assert(text::views(b@).take(b@.len() as int) =~= text::views(b@));
    r
}

/// The last name of a path, where it has one and that is not `..`.
pub open spec fn last_name(p: Seq<char>) -> Option<Seq<char>> {
    if names(p).len() > 0 && names(p).last() != seq!['.', '.'] {
        Some(names(p).last())
    } else {
        None
    }
}

pub fn file_name(p: &str) -> (r: Option<String>)
    ensures
        r is Some == last_name(p@) is Some,
        r matches Some(name) ==> last_name(p@) == Some(name@),
{
    let mut ns = names_of(p);
    proof {
        reveal_strlit("..");
    }
    assert(".."@ =~= seq!['.', '.']);
    let ghost all = text::views(ns@);
    assert(all.len() == ns@.len());
    match ns.pop() {
        None => None,
        Some(name) => {
            assert(name@ == all.last());
            if text::same(name.as_str(), "..") {
                None
            } else {
                Some(name)
            }
        },
    }
}

/// The index of the last piece that names something, or -1.
pub open spec fn last_named(pieces: Seq<Seq<char>>) -> int
    decreases pieces.len(),
{
    if pieces.len() == 0 {
        -1
    } else if named(pieces.last()) {
        pieces.len() - 1
    } else {
        last_named(pieces.drop_last())
    }
}

/// The path without its last component, where it has one besides the root.
pub open spec fn parent_of(p: Seq<char>) -> Option<Seq<char>> {
    let pieces = text::split(p, '/');
    let i = last_named(pieces);
    if i < 0 {
        if pieces[0] == seq!['.'] {
            Some(Seq::empty())
        } else {
            None
        }
    } else {
        let j = last_named(pieces.take(i));
        if j >= 0 {
            Some(slashed(pieces.take(j + 1)))
        } else if absolute(p) {
            Some(seq!['/'])
        } else if i > 0 {
            Some(seq!['.'])
        } else {
            Some(Seq::empty())
        }
    }
}

proof fn lemma_last_named(pieces: Seq<Seq<char>>)
    ensures
        -1 <= last_named(pieces) < pieces.len(),
    decreases pieces.len(),
{
    if pieces.len() > 0 {
        lemma_last_named(pieces.drop_last());
    }
}

pub(crate) proof fn lemma_named_at(pieces: Seq<Seq<char>>)
    requires
        last_named(pieces) >= 0,
    ensures
        named(pieces[last_named(pieces)]),
    decreases pieces.len(),
{
    if pieces.len() > 0 {
        lemma_last_named(pieces.drop_last());
        if !named(pieces.last()) {
            lemma_named_at(pieces.drop_last());
        }
    }
}

/// The number of pieces up to the last of the first `upto` that names
/// something.
fn named_prefix(pieces: &Vec<String>, upto: usize) -> (n: usize)
    requires
        upto <= pieces@.len(),
    ensures
        n == last_named(text::views(pieces@).take(upto as int)) + 1,
        n <= upto,
{
    let ghost all = text::views(pieces@);
    let mut n: usize = upto;
    while n > 0
        invariant
            n <= upto <= pieces@.len(),
            all == text::views(pieces@),
            last_named(all.take(n as int)) == last_named(all.take(upto as int)),
        decreases n,
    {
        assert(all.take(n as int).drop_last() =~= all.take(n - 1));
        assert(all.take(n as int).last() == pieces@[n - 1]@);
        if is_named(pieces[n - 1].as_str()) {
            return n;
        }
        n -= 1;
    }
    n
}

fn first_pieces(pieces: &Vec<String>, n: usize) -> (r: Vec<String>)
    requires
        n <= pieces@.len(),
    ensures
        text::views(r@) == text::views(pieces@).take(n as int),
{
    let mut r: Vec<String> = Vec::new();
    let mut i: usize = 0;
    assert(text::views(r@) =~= text::views(pieces@).take(0));
    while i < n
        invariant
            i <= n <= pieces@.len(),
            text::views(r@) == text::views(pieces@).take(i as int),
        decreases n - i,
    {
        let ghost before = r@;
        r.push(pieces[i].clone());
        assert(text::views(r@) =~= text::views(before).push(pieces@[i as int]@));
        i += 1;
        assert(text::views(r@) =~= text::views(pieces@).take(i as int));
    }
    r
}

/// The path without its last component.
pub fn parent(p: &str) -> (r: Option<String>)
    ensures
        r is Some == parent_of(p@) is Some,
        r matches Some(t) ==> parent_of(p@) == Some(t@),
{
    let pieces = text::split_at_char(p, '/');
    let ghost all = text::views(pieces@);
    proof {
        text::lemma_split_nonempty(p@, '/');
        lemma_last_named(all);
        reveal_strlit(".");
        reveal_strlit("/");
    }
    assert("."@ =~= seq!['.']);
    assert("/"@ =~= seq!['/']);
    assert(all.len() == pieces@.len());
    assert(all.take(all.len() as int) =~= all);
    let n: usize = named_prefix(&pieces, pieces.len());
    if n == 0 {
        if text::same(pieces[0].as_str(), ".") {
            return Some(String::new());
        }
        return None;
    }
    assert(all.take(n - 1) =~= all.take(last_named(all)));
    let m: usize = named_prefix(&pieces, n - 1);
    if m > 0 {
        let kept = first_pieces(&pieces, m);
        Some(render(false, &kept))
    } else if is_absolute(p) {
        Some("/".to_owned())
    } else if n > 1 {
        Some(".".to_owned())
    } else {
        Some(String::new())
    }
}

/// The index of the last dot, or -1.
pub open spec fn last_dot(name: Seq<char>) -> int
    decreases name.len(),
{
    if name.len() == 0 {
        -1
    } else if name.last() == '.' {
        name.len() - 1
    } else {
        last_dot(name.drop_last())
    }
}

/// A file name without its extension; a dot at its start begins none.
pub open spec fn stem(name: Seq<char>) -> Seq<char> {
    if last_dot(name) > 0 {
        name.take(last_dot(name))
    } else {
        name
    }
}

/// The path with the extension of its last name replaced or added; a path
/// without a last name stays as it is. A name such as `..b`, with nothing behind
/// it, only loses its extension: what is left of it names a directory.
pub open spec fn extended(p: Seq<char>, extension: Seq<char>) -> Seq<char> {
    let pieces = text::split(p, '/');
    let i = last_named(pieces);
    if i < 0 || pieces[i] == seq!['.', '.'] {
        p
    } else {
        let name = if i == pieces.len() - 1 && stem(pieces[i]) == seq!['.'] {
            seq!['.', '.']
        } else if extension.len() == 0 {
            stem(pieces[i])
        } else {
            stem(pieces[i]) + seq!['.'] + extension
        };
        if i == 0 {
            name
        } else {
            slashed(pieces.take(i)) + seq!['/'] + name
        }
    }
}

fn stem_of(name: &str) -> (r: String)
    ensures
        r@ == stem(name@),
{
    let v = text::chars_of(name);
    let mut n: usize = v.len();
    assert(v@.take(v@.len() as int) =~= v@);
    while n > 0
        invariant
            n <= v@.len(),
            v@ == name@,
            last_dot(v@.take(n as int)) == last_dot(v@),
        decreases n,
    {
        assert(v@.take(n as int).drop_last() =~= v@.take(n - 1));
        assert(v@.take(n as int).last() == v@[n - 1]);
        if v[n - 1] == '.' {
            if n - 1 > 0 {
                assert(v@.subrange(0, n - 1) =~= v@.take(n - 1));
                return text::string_of(v.as_slice(), 0, n - 1);
            }
            return name.to_owned();
        }
        n -= 1;
    }
    name.to_owned()
}

/// Replaces or adds the extension of the last name of a path.
pub fn with_extension(p: &str, extension: &str) -> (r: String)
    ensures
        r@ == extended(p@, extension@),
{
    let pieces = text::split_at_char(p, '/');
    let ghost all = text::views(pieces@);
    proof {
        text::lemma_split_nonempty(p@, '/');
        lemma_last_named(all);
        reveal_strlit("..");
        reveal_strlit(".");
    }
    assert(".."@ =~= seq!['.', '.']);
    assert("."@ =~= seq!['.']);
    assert(all.len() == pieces@.len());
    assert(all.take(all.len() as int) =~= all);
    let n: usize = named_prefix(&pieces, pieces.len());
    if n == 0 || text::same(pieces[n - 1].as_str(), "..") {
        return p.to_owned();
    }
    let name = stem_of(pieces[n - 1].as_str());
    let mut r = String::new();
    if n > 1 {
        let before = first_pieces(&pieces, n - 1);
        r = render(false, &before);
        r.push('/');
    }
    if n == pieces.len() && text::same(name.as_str(), ".") {
        r.append("..");
    } else {
        r.append(name.as_str());
        if !extension.is_empty() {
            r.push('.');
            r.append(extension);
        }
    }
    assert(r@ =~= extended(p@, extension@));
    r
}

/// A name that a normalised path may hold.
pub open spec fn plain(name: Seq<char>) -> bool {
    named(name) && name != seq!['.', '.'] && !name.contains('/')
}

pub open spec fn all_plain(ns: Seq<Seq<char>>) -> bool {
    forall|i: int| 0 <= i < ns.len() ==> plain(#[trigger] ns[i])
}

pub(crate) proof fn lemma_split_pieces(s: Seq<char>)
    ensures
        forall|i: int|
            0 <= i < text::split(s, '/').len() ==> !(#[trigger] text::split(s, '/')[i]).contains('/'),
    decreases s.len(),
{
    text::lemma_split_nonempty(s, '/');
    if s.len() > 0 {
        lemma_split_pieces(s.drop_last());
        text::lemma_split_nonempty(s.drop_last(), '/');
        let before = text::split(s.drop_last(), '/');
        assert forall|i: int| 0 <= i < text::split(s, '/').len() implies !(
        #[trigger] text::split(s, '/')[i]).contains('/') by {
            if s.last() != '/' && i == before.len() - 1 {
                let piece = before.last().push(s.last());
                assert(!before[before.len() - 1].contains('/'));
                assert forall|k: int| 0 <= k < piece.len() implies piece[k] != '/' by {
                    if k < piece.len() - 1 {
                        assert(piece[k] == before.last()[k]);
                        assert(before.last().contains(before.last()[k]));
                    }
                }
            } else if i < before.len() {
                assert(text::split(s, '/')[i] == before[i]);
            }
        }
    }
}

proof fn lemma_keep_named(pieces: Seq<Seq<char>>)
    requires
        forall|i: int| 0 <= i < pieces.len() ==> !(#[trigger] pieces[i]).contains('/'),
    ensures
        forall|i: int|
            0 <= i < keep_named(pieces).len() ==> named(#[trigger] keep_named(pieces)[i])
                && !keep_named(pieces)[i].contains('/'),
    decreases pieces.len(),
{
    if pieces.len() > 0 {
        assert forall|i: int| 0 <= i < pieces.drop_last().len() implies !(
        #[trigger] pieces.drop_last()[i]).contains('/') by {
            assert(pieces.drop_last()[i] == pieces[i]);
        }
        lemma_keep_named(pieces.drop_last());
        assert(!pieces[pieces.len() - 1].contains('/'));
        let before = keep_named(pieces.drop_last());
        assert forall|i: int| 0 <= i < keep_named(pieces).len() implies named(
            #[trigger] keep_named(pieces)[i],
        ) && !keep_named(pieces)[i].contains('/') by {
            if i < before.len() {
                assert(keep_named(pieces)[i] == before[i]);
            }
        }
    }
}

/// Walking along names that hold no slash ends at plain names.
proof fn lemma_walk_plain(at: Seq<Seq<char>>, along: Seq<Seq<char>>)
    requires
        all_plain(at),
        forall|i: int|
            0 <= i < along.len() ==> named(#[trigger] along[i]) && !along[i].contains('/'),
    ensures
        all_plain(walk(at, along)),
    decreases along.len(),
{
    if along.len() > 0 {
        let init = along.drop_last();
        assert forall|i: int| 0 <= i < init.len() implies named(#[trigger] init[i])
            && !init[i].contains('/') by {
            assert(init[i] == along[i]);
        }
        lemma_walk_plain(at, init);
        assert(named(along[along.len() - 1]));
    }
}

pub(crate) proof fn lemma_names_walk_plain(p: Seq<char>)
    ensures
        all_plain(walk(Seq::empty(), names(p))),
{
    lemma_split_pieces(p);
    lemma_keep_named(text::split(p, '/'));
    lemma_walk_plain(Seq::empty(), names(p));
}

proof fn lemma_walk_of_plain(ns: Seq<Seq<char>>)
    requires
        all_plain(ns),
    ensures
        walk(Seq::empty(), ns) == ns,
    decreases ns.len(),
{
    if ns.len() > 0 {
        assert forall|i: int| 0 <= i < ns.drop_last().len() implies plain(
            #[trigger] ns.drop_last()[i],
        ) by {
            assert(plain(ns[i]));
        }
        lemma_walk_of_plain(ns.drop_last());
        assert(plain(ns[ns.len() - 1]));
        assert(ns.drop_last().push(ns.last()) =~= ns);
    }
}

proof fn lemma_keep_plain(lead: Seq<Seq<char>>, ns: Seq<Seq<char>>)
    requires
        all_plain(ns),
    ensures
        keep_named(lead + ns) == keep_named(lead) + ns,
    decreases ns.len(),
{
    if ns.len() == 0 {
        assert(lead + ns =~= lead);
        assert(keep_named(lead) + ns =~= keep_named(lead));
    } else {
        assert forall|i: int| 0 <= i < ns.drop_last().len() implies plain(
            #[trigger] ns.drop_last()[i],
        ) by {
            assert(plain(ns[i]));
        }
        lemma_keep_plain(lead, ns.drop_last());
        assert((lead + ns).drop_last() =~= lead + ns.drop_last());
        assert(plain(ns[ns.len() - 1]));
        assert((keep_named(lead) + ns.drop_last()).push(ns.last()) =~= keep_named(lead) + ns);
    }
}

/// Splitting a list of plain names that slashes separate gives the names back.
proof fn lemma_split_slashed(ns: Seq<Seq<char>>)
    requires
        all_plain(ns),
        ns.len() > 0,
    ensures
        text::split(slashed(ns), '/') == ns,
        slashed(ns).len() > 0,
        slashed(ns)[0] != '/',
    decreases ns.len(),
{
    assert(plain(ns[0]));
    if ns.len() == 1 {
        text::lemma_split_single(ns[0], '/');
        assert(ns =~= seq![ns[0]]);
        assert(ns[0].contains(ns[0][0]));
    } else {
        assert forall|i: int| 0 <= i < ns.drop_last().len() implies plain(
            #[trigger] ns.drop_last()[i],
        ) by {
            assert(plain(ns[i]));
        }
        lemma_split_slashed(ns.drop_last());
        assert(plain(ns[ns.len() - 1]));
        text::lemma_split_after(slashed(ns.drop_last()), '/', ns.last());
        assert(ns.drop_last().push(ns.last()) =~= ns);
    }
}

proof fn lemma_split_from_root(s: Seq<char>)
    ensures
        text::split(seq!['/'] + s, '/') == seq![Seq::<char>::empty()] + text::split(s, '/'),
    decreases s.len(),
{
    let t = seq!['/'] + s;
    text::lemma_split_nonempty(s, '/');
    if s.len() == 0 {
        reveal_with_fuel(text::split, 2);
        assert(t.drop_last() =~= Seq::empty());
        assert(text::split(t, '/') =~= seq![Seq::<char>::empty(), Seq::<char>::empty()]);
        assert(s =~= Seq::empty());
        assert(text::split(t, '/') =~= seq![Seq::<char>::empty()] + text::split(s, '/'));
    } else {
        assert(t.drop_last() =~= seq!['/'] + s.drop_last());
        lemma_split_from_root(s.drop_last());
        text::lemma_split_nonempty(s.drop_last(), '/');
        assert(text::split(t, '/') =~= seq![Seq::<char>::empty()] + text::split(s, '/'));
    }
}

/// The names along the path text of a list of plain names are these names.
pub proof fn lemma_names_of_rendered(from_root: bool, ns: Seq<Seq<char>>)
    requires
        all_plain(ns),
    ensures
        names(rendered(from_root, ns)) == ns,
        absolute(rendered(from_root, ns)) == from_root,
{
    let empty: Seq<Seq<char>> = seq![Seq::<char>::empty()];
    reveal_with_fuel(keep_named, 2);
    assert(empty.drop_last() =~= Seq::empty());
    assert(keep_named(empty) =~= Seq::empty());
    if ns.len() == 0 {
        assert(slashed(ns) =~= Seq::empty());
        lemma_split_from_root(slashed(ns));
        assert(empty + empty =~= empty.push(Seq::<char>::empty()));
        assert((empty + empty).drop_last() =~= empty);
        assert(keep_named(empty + empty) =~= Seq::empty());
        assert(ns =~= Seq::empty());
    } else {
        lemma_split_slashed(ns);
        lemma_split_from_root(slashed(ns));
        lemma_keep_plain(empty, ns);
        lemma_keep_plain(Seq::empty(), ns);
        assert(Seq::<Seq<char>>::empty() + ns =~= ns);
    }
}

/// Normalising a normalised path changes nothing.
pub proof fn normalizing_twice_is_normalizing_once(p: Seq<char>)
    ensures
        normalized(normalized(p)) == normalized(p),
{
    let ns = walk(Seq::empty(), names(p));
    lemma_names_walk_plain(p);
    lemma_names_of_rendered(absolute(p), ns);
    lemma_walk_of_plain(ns);
}

/// A normalised path is absolute exactly where the path was, and holds neither
/// `.` nor `..`.
pub proof fn normalized_path_is_plain(p: Seq<char>)
    ensures
        absolute(normalized(p)) == absolute(p),
        all_plain(names(normalized(p))),
{
    lemma_names_walk_plain(p);
    lemma_names_of_rendered(absolute(p), walk(Seq::empty(), names(p)));
}

proof fn lemma_names_are_named(p: Seq<char>)
    ensures
        forall|i: int|
            0 <= i < names(p).len() ==> named(#[trigger] names(p)[i]) && !names(p)[i].contains('/'),
{
    lemma_split_pieces(p);
    lemma_keep_named(text::split(p, '/'));
}

proof fn lemma_some_name(pieces: Seq<Seq<char>>)
    ensures
        keep_named(pieces).len() > 0 <==> last_named(pieces) >= 0,
    decreases pieces.len(),
{
    if pieces.len() > 0 {
        lemma_some_name(pieces.drop_last());
        lemma_last_named(pieces.drop_last());
    }
}

/// Pieces of which the first is empty begin with a slash when joined.
pub(crate) proof fn lemma_joined_after_root(pieces: Seq<Seq<char>>)
    requires
        pieces.len() > 1,
        pieces[0].len() == 0,
    ensures
        absolute(slashed(pieces)),
    decreases pieces.len(),
{
    let init = pieces.drop_last();
    if init.len() == 1 {
        assert(slashed(init) =~= Seq::empty());
    } else {
        lemma_joined_after_root(init);
        assert(slashed(pieces)[0] == slashed(init)[0]);
    }
}

/// A file at an absolute path lies in a directory at an absolute path.
pub proof fn parents_of_absolute_paths_are_absolute(p: Seq<char>)
    requires
        absolute(p),
        names(p).len() > 0,
    ensures
        parent_of(p) is Some,
        absolute(parent_of(p)->0),
{
    let pieces = text::split(p, '/');
    let i = last_named(pieces);
    assert(p =~= seq!['/'] + p.skip(1));
    lemma_split_from_root(p.skip(1));
    assert(pieces[0].len() == 0);
    lemma_some_name(pieces);
    lemma_last_named(pieces);
    lemma_last_named(pieces.take(i));
    let j = last_named(pieces.take(i));
    if j >= 0 {
        lemma_named_at(pieces.take(i));
        assert(pieces.take(i)[j] == pieces[j]);
        lemma_joined_after_root(pieces.take(j + 1));
    }
}

/// The last name of a path is not empty and holds no slash.
pub proof fn lemma_last_name(p: Seq<char>)
    ensures
        last_name(p) matches Some(name) ==> name.len() > 0 && !name.contains('/'),
{
    lemma_names_are_named(p);
}

/// A path text determines what stands before and after its last slash.
pub proof fn lemma_last_slash(a: Seq<char>, x: Seq<char>, b: Seq<char>, y: Seq<char>)
    requires
        a + seq!['/'] + x == b + seq!['/'] + y,
        !x.contains('/'),
        !y.contains('/'),
    ensures
        a == b,
        x == y,
{
    text::lemma_split_after(a, '/', x);
    text::lemma_split_after(b, '/', y);
    let s = a + seq!['/'] + x;
    let t = b + seq!['/'] + y;
    assert(text::split(a, '/').push(x).last() == x);
    assert(text::split(b, '/').push(y).last() == y);
    assert(a =~= s.take(s.len() - x.len() - 1));
    assert(b =~= t.take(t.len() - y.len() - 1));
}

} // verus!

//! What paths are, one name at a time: how a path is read, normalised and left when a
//! further name is written behind a slash.
use vstd::prelude::*;

use crate::paths;
use crate::text;

verus! {

/// A path with one more piece behind a slash.
pub open spec fn below(p: Seq<char>, piece: Seq<char>) -> Seq<char> {
    p + seq!['/'] + piece
}

/// The piece names nothing: it is empty or `.`.
pub open spec fn idle(piece: Seq<char>) -> bool {
    piece.len() == 0 || piece == seq!['.']
}

/// A further piece adds one name to a path, unless it is empty or `.`.
pub proof fn a_further_piece_is_a_further_name(p: Seq<char>, piece: Seq<char>)
    requires
        !piece.contains('/'),
    ensures
        paths::names(below(p, piece)) == (if idle(piece) {
            paths::names(p)
        } else {
            paths::names(p).push(piece)
        }),
        p.len() > 0 ==> paths::components(below(p, piece)) == (if idle(piece) {
            paths::components(p)
        } else {
            paths::components(p).push(piece)
        }),
        p.len() > 0 ==> (paths::absolute(below(p, piece)) <==> p[0] == '/'),
{
    text::lemma_split_after(p, '/', piece);
    text::lemma_split_nonempty(p, '/');
    let pieces = text::split(p, '/');
    assert(pieces.push(piece).drop_last() =~= pieces);
    assert(pieces.push(piece)[0] == pieces[0]);
    if p.len() > 0 {
        assert(below(p, piece)[0] == p[0]);
        if !idle(piece) {
            assert(paths::components(below(p, piece)) =~= paths::components(p).push(piece));
        }
    }
}

/// A path without a slash is its only component; the root is one too, and nothing has
/// none.
pub proof fn a_single_piece_is_a_single_component(piece: Seq<char>)
    requires
        !piece.contains('/'),
    ensures
        piece.len() > 0 ==> paths::components(piece) == seq![piece],
        piece.len() == 0 ==> paths::components(piece) == Seq::<Seq<char>>::empty(),
        !idle(piece) ==> paths::names(piece) == seq![piece],
        idle(piece) ==> paths::names(piece) == Seq::<Seq<char>>::empty(),
        paths::components(seq!['/']) == seq![seq!['/']],
{
    text::lemma_split_single(piece, '/');
    reveal_with_fuel(paths::keep_named, 2);
    assert(seq![piece].drop_last() =~= Seq::empty());
    if piece.len() > 0 {
        assert(piece.contains(piece[0]));
    }
    if !idle(piece) {
        assert(paths::names(piece) =~= seq![piece]);
    }
    assert(paths::components(piece) =~= (if piece.len() > 0 {
        seq![piece]
    } else {
        Seq::<Seq<char>>::empty()
    }));
    let empty = Seq::<char>::empty();
    assert(below(empty, empty) =~= seq!['/']);
    assert(!empty.contains('/'));
    text::lemma_split_after(empty, '/', empty);
    text::lemma_split_single(empty, '/');
    assert(seq![empty].push(empty).drop_last() =~= seq![empty]);
    assert(seq![empty].drop_last() =~= Seq::<Seq<char>>::empty());
    reveal_with_fuel(paths::keep_named, 3);
    assert(paths::names(seq!['/']) =~= Seq::<Seq<char>>::empty());
    assert(paths::components(seq!['/']) =~= seq![seq!['/']]);
}

/// Normalising goes along a path piece by piece: an empty piece or `.` changes nothing,
/// `..` takes away the last name where there is one, any other piece is a further name.
/// A path from the root stays one.
pub proof fn normalising_takes_one_piece_at_a_time(p: Seq<char>, piece: Seq<char>)
    requires
        p.len() > 0,
        !piece.contains('/'),
    ensures
        ({
            let before = paths::names(paths::normalized(p));
            let after = paths::names(paths::normalized(below(p, piece)));
            &&& idle(piece) ==> after == before
            &&& piece == seq!['.', '.'] ==> after == (if before.len() > 0 {
                before.drop_last()
            } else {
                before
            })
            &&& !idle(piece) && piece != seq!['.', '.'] ==> after == before.push(piece)
        }),
        paths::absolute(paths::normalized(below(p, piece))) <==> p[0] == '/',
        paths::normalized(p) == (if p[0] == '/' {
            seq!['/']
        } else {
            seq![]
        }) + text::joined(paths::names(paths::normalized(p)), '/'),
{
    a_further_piece_is_a_further_name(p, piece);
    paths::lemma_names_walk_plain(p);
    paths::lemma_names_walk_plain(below(p, piece));
    let at = paths::walk(Seq::empty(), paths::names(p));
    let end = paths::walk(Seq::empty(), paths::names(below(p, piece)));
    paths::lemma_names_of_rendered(paths::absolute(p), at);
    paths::lemma_names_of_rendered(paths::absolute(below(p, piece)), end);
    if !idle(piece) {
        let along = paths::names(p).push(piece);
        assert(along.drop_last() =~= paths::names(p));
        assert(end == paths::step(at, piece));
    }
    assert(paths::normalized(p) =~= (if p[0] == '/' {
        seq!['/']
    } else {
        seq![]
    }) + text::joined(at, '/'));
}

/// Joining writes a relative path behind a directory, with one slash between them, and
/// takes a path from the root as it is.
pub proof fn joining_writes_a_path_behind_a_directory(base: Seq<char>, p: Seq<char>)
    ensures
        p.len() > 0 && p[0] == '/' ==> paths::join_of(base, p) == p,
        (p.len() == 0 || p[0] != '/') && base.len() > 0 && base.last() != '/' ==> paths::join_of(
            base,
            p,
        ) == below(base, p),
        (p.len() == 0 || p[0] != '/') && (base.len() == 0 || base.last() == '/') ==> paths::join_of(
            base,
            p,
        ) == base + p,
{
}

/// Pieces without slashes are found again where slashes separate them.
proof fn lemma_split_joined(pieces: Seq<Seq<char>>)
    requires
        pieces.len() > 0,
        forall|i: int| 0 <= i < pieces.len() ==> !(#[trigger] pieces[i]).contains('/'),
    ensures
        text::split(text::joined(pieces, '/'), '/') == pieces,
    decreases pieces.len(),
{
    let init = pieces.drop_last();
    assert(!pieces[pieces.len() - 1].contains('/'));
    if pieces.len() == 1 {
        text::lemma_split_single(pieces[0], '/');
        assert(pieces =~= seq![pieces[0]]);
    } else {
        assert forall|i: int| 0 <= i < init.len() implies !(#[trigger] init[i]).contains('/') by {
            assert(init[i] == pieces[i]);
        }
        lemma_split_joined(init);
        text::lemma_split_after(text::joined(init, '/'), '/', pieces.last());
        assert(init.push(pieces.last()) =~= pieces);
    }
}

/// What stands before the last piece that names something holds all names before it.
proof fn lemma_names_up_to_the_last(pieces: Seq<Seq<char>>)
    ensures
        paths::keep_named(pieces.take(paths::last_named(pieces) + 1)) == paths::keep_named(pieces),
        -1 <= paths::last_named(pieces) < pieces.len(),
    decreases pieces.len(),
{
    if pieces.len() > 0 {
        let init = pieces.drop_last();
        lemma_names_up_to_the_last(init);
        if paths::named(pieces.last()) {
            assert(pieces.take(pieces.len() as int) =~= pieces);
        } else {
            let j = paths::last_named(init);
            assert(pieces.take(j + 1) =~= init.take(j + 1));
        }
    } else {
        assert(pieces.take(0) =~= pieces);
    }
}

/// A file lies in the directory before its name: the parent of a path with a name
/// behind a slash names what stands before the slash.
pub proof fn the_parent_is_what_stands_before_the_name(p: Seq<char>, name: Seq<char>)
    requires
        p.len() > 0,
        !name.contains('/'),
        !idle(name),
    ensures
        paths::parent_of(below(p, name)) is Some,
        paths::names(paths::parent_of(below(p, name))->0) == paths::names(p),
        paths::absolute(paths::parent_of(below(p, name))->0) <==> p[0] == '/',
{
    let pieces = text::split(below(p, name), '/');
    let before = text::split(p, '/');
    text::lemma_split_after(p, '/', name);
    text::lemma_split_nonempty(p, '/');
    assert(pieces == before.push(name));
    assert(paths::last_named(pieces) == before.len());
    assert(pieces.take(before.len() as int) =~= before);
    let j = paths::last_named(before);
    lemma_names_up_to_the_last(before);
    paths::lemma_split_pieces(p);
    text::joining_undoes_splitting(p, '/');
    assert(below(p, name)[0] == p[0]);
    if before[0].len() == 0 && before.len() > 1 {
        paths::lemma_joined_after_root(before);
    }
    if j >= 0 {
        let kept = before.take(j + 1);
        assert(pieces.take(j + 1) =~= kept);
        assert forall|i: int| 0 <= i < kept.len() implies !(#[trigger] kept[i]).contains('/') by {
            assert(kept[i] == before[i]);
        }
        lemma_split_joined(kept);
        lemma_first_char(before);
        paths::lemma_named_at(before);
        lemma_first_char(kept);
        assert(kept[0] == before[0]);
    } else {
        assert(before.take(0) =~= Seq::empty());
        a_single_piece_is_a_single_component(seq!['.']);
        assert(seq!['.'][0] != '/');
        lemma_root_has_no_names();
    }
}

proof fn lemma_root_has_no_names()
    ensures
        paths::names(seq!['/']) == Seq::<Seq<char>>::empty(),
{
    let empty = Seq::<char>::empty();
    assert(below(empty, empty) =~= seq!['/']);
    assert(!empty.contains('/'));
    text::lemma_split_after(empty, '/', empty);
    text::lemma_split_single(empty, '/');
    assert(seq![empty].push(empty).drop_last() =~= seq![empty]);
    assert(seq![empty].drop_last() =~= Seq::<Seq<char>>::empty());
    reveal_with_fuel(paths::keep_named, 3);
}

/// Joined pieces begin with a slash exactly where the first is empty and not the only
/// one.
proof fn lemma_first_char(pieces: Seq<Seq<char>>)
    requires
        pieces.len() > 0,
        forall|i: int| 0 <= i < pieces.len() ==> !(#[trigger] pieces[i]).contains('/'),
    ensures
        paths::absolute(text::joined(pieces, '/')) <==> pieces[0].len() == 0 && pieces.len() > 1,
        pieces[0].len() > 0 ==> text::joined(pieces, '/').len() > 0 && text::joined(pieces, '/')[0]
            == pieces[0][0],
    decreases pieces.len(),
{
    let init = pieces.drop_last();
    if pieces.len() == 1 {
        if pieces[0].len() > 0 {
            assert(pieces[0].contains(pieces[0][0]));
        }
    } else {
        assert forall|i: int| 0 <= i < init.len() implies !(#[trigger] init[i]).contains('/') by {
            assert(init[i] == pieces[i]);
        }
        lemma_first_char(init);
        if pieces[0].len() > 0 {
            assert(pieces[0].contains(pieces[0][0]));
            assert(text::joined(pieces, '/')[0] == text::joined(init, '/')[0]);
        } else if init.len() > 1 {
            assert(text::joined(pieces, '/')[0] == text::joined(init, '/')[0]);
        } else {
            assert(text::joined(init, '/') =~= Seq::empty());
        }
    }
}

/// A path lies under another exactly where the components of that other begin its own:
/// every path lies under itself, what lies under something under a third lies under the
/// third, and a path with a name more lies under what the shorter one does.
pub proof fn lying_under_follows_the_names(
    p: Seq<char>,
    q: Seq<char>,
    r: Seq<char>,
    name: Seq<char>,
)
    requires
        p.len() > 0,
        !name.contains('/'),
        !idle(name),
    ensures
        paths::lies_under(p, p),
        paths::lies_under(p, q) && paths::lies_under(q, r) ==> paths::lies_under(p, r),
        paths::lies_under(p, q) ==> paths::lies_under(below(p, name), q),
        paths::lies_under(below(p, name), q) ==> paths::lies_under(p, q) || paths::components(q)
            == paths::components(below(p, name)),
        !paths::lies_under(p, below(p, name)),
{
    a_further_piece_is_a_further_name(p, name);
    let a = paths::components(p);
    let b = paths::components(q);
    let c = paths::components(r);
    let longer = a.push(name);
    if b.is_prefix_of(a) && c.is_prefix_of(b) {
        assert(c =~= a.subrange(0, c.len() as int));
    }
    if b.is_prefix_of(a) {
        assert(b =~= longer.subrange(0, b.len() as int));
    }
    if b.is_prefix_of(longer) {
        if b.len() <= a.len() {
            assert(b =~= a.subrange(0, b.len() as int));
        } else {
            assert(b =~= longer);
        }
    }
    assert(a =~= a.subrange(0, a.len() as int));
}

/// The last name of a path is the piece behind its last slash, unless that is `..`.
pub proof fn the_last_name_stands_behind_the_last_slash(p: Seq<char>, name: Seq<char>)
    requires
        !name.contains('/'),
        !idle(name),
    ensures
        paths::last_name(below(p, name)) == (if name == seq!['.', '.'] {
            None
        } else {
            Some(name)
        }),
        paths::last_name(name) == (if name == seq!['.', '.'] {
            None
        } else {
            Some(name)
        }),
{
    a_further_piece_is_a_further_name(p, name);
    a_single_piece_is_a_single_component(name);
}

/// The parent of a path whose last piece names something is all that stands before the
/// last slash, where that ends in a name; what names nothing counts for nothing, behind
/// the name and before it. A single name lies in the empty path, a name behind the first
/// slash in the root, and what has no name has no parent, but for `.`.
pub proof fn parents_are_found_piece_by_piece(
    q: Seq<char>,
    last: Seq<char>,
    name: Seq<char>,
    nothing: Seq<char>,
)
    requires
        !last.contains('/'),
        !idle(last),
        !name.contains('/'),
        !idle(name),
        !nothing.contains('/'),
        idle(nothing),
    ensures
        paths::parent_of(below(below(q, last), name)) == Some(below(q, last)),
        paths::parent_of(below(last, name)) == Some(last),
        q.len() > 0 ==> paths::parent_of(below(q, nothing)) == paths::parent_of(q),
        q.len() > 0 ==> paths::parent_of(below(below(q, nothing), name)) == paths::parent_of(
            below(q, name),
        ),
        paths::parent_of(name) == Some(Seq::<char>::empty()),
        paths::parent_of(below(Seq::empty(), name)) == Some(seq!['/']),
        paths::parent_of(below(seq!['.'], name)) == Some(seq!['.']),
        paths::parent_of(seq!['.']) == Some(Seq::<char>::empty()),
        paths::parent_of(Seq::empty()) is None,
        paths::parent_of(seq!['/']) is None,
{
    lemma_parent_behind_a_name(below(q, last), name);
    lemma_ends_in(q, last);
    lemma_parent_behind_a_name(last, name);
    lemma_is_one_piece(last);
    lemma_is_one_piece(name);
    lemma_is_one_piece(seq!['.']);
    lemma_is_one_piece(Seq::empty());
    if q.len() > 0 {
        lemma_nothing_behind(q, nothing);
        lemma_nothing_between(q, nothing, name);
    }
    let empty = Seq::<char>::empty();
    text::lemma_split_after(empty, '/', name);
    text::lemma_split_after(seq!['.'], '/', name);
    text::lemma_split_after(empty, '/', empty);
    assert(below(empty, empty) =~= seq!['/']);
    assert(below(empty, name)[0] == '/');
    assert(below(seq!['.'], name)[0] == '.');
    let rooted = seq![empty].push(name);
    assert(rooted.drop_last() =~= seq![empty]);
    assert(rooted.take(1) =~= seq![empty]);
    let dotted = seq![seq!['.']].push(name);
    assert(dotted.drop_last() =~= seq![seq!['.']]);
    assert(dotted.take(1) =~= seq![seq!['.']]);
    let slash = seq![empty].push(empty);
    assert(slash.drop_last() =~= seq![empty]);
    assert(seq![empty].drop_last() =~= Seq::<Seq<char>>::empty());
    assert(seq![seq!['.']].drop_last() =~= Seq::<Seq<char>>::empty());
    assert(seq![name].drop_last() =~= Seq::<Seq<char>>::empty());
    assert(seq![name].take(0) =~= Seq::<Seq<char>>::empty());
    reveal_with_fuel(paths::last_named, 3);
}

proof fn lemma_is_one_piece(piece: Seq<char>)
    requires
        !piece.contains('/'),
    ensures
        text::split(piece, '/') == seq![piece],
        !paths::absolute(piece),
        !idle(piece) ==> paths::last_named(text::split(piece, '/')) == 0,
{
    text::lemma_split_single(piece, '/');
    if piece.len() > 0 {
        assert(piece.contains(piece[0]));
    }
    assert(seq![piece].last() == piece);
}

proof fn lemma_ends_in(q: Seq<char>, last: Seq<char>)
    requires
        !last.contains('/'),
        !idle(last),
    ensures
        paths::last_named(text::split(below(q, last), '/')) == text::split(below(q, last), '/').len()
            - 1,
{
    text::lemma_split_after(q, '/', last);
    assert(text::split(q, '/').push(last).last() == last);
}

proof fn lemma_parent_behind_a_name(p: Seq<char>, name: Seq<char>)
    requires
        !name.contains('/'),
        !idle(name),
    ensures
        paths::last_named(text::split(p, '/')) == text::split(p, '/').len() - 1
            ==> paths::parent_of(below(p, name)) == Some(p),
{
    let before = text::split(p, '/');
    text::lemma_split_after(p, '/', name);
    text::lemma_split_nonempty(p, '/');
    text::joining_undoes_splitting(p, '/');
    let pieces = before.push(name);
    assert(pieces.last() == name);
    assert(pieces.take(before.len() as int) =~= before);
}

proof fn lemma_nothing_behind(p: Seq<char>, nothing: Seq<char>)
    requires
        p.len() > 0,
        !nothing.contains('/'),
        idle(nothing),
    ensures
        paths::parent_of(below(p, nothing)) == paths::parent_of(p),
{
    let before = text::split(p, '/');
    text::lemma_split_after(p, '/', nothing);
    text::lemma_split_nonempty(p, '/');
    let pieces = before.push(nothing);
    assert(pieces.drop_last() =~= before);
    lemma_names_up_to_the_last(before);
    let i = paths::last_named(before);
    assert(pieces[0] == before[0]);
    assert(below(p, nothing)[0] == p[0]);
    if i >= 0 {
        assert(pieces.take(i) =~= before.take(i));
        lemma_names_up_to_the_last(before.take(i));
        let j = paths::last_named(before.take(i));
        assert(pieces.take(j + 1) =~= before.take(j + 1));
    }
}

proof fn lemma_nothing_between(p: Seq<char>, nothing: Seq<char>, name: Seq<char>)
    requires
        p.len() > 0,
        !nothing.contains('/'),
        idle(nothing),
        !name.contains('/'),
        !idle(name),
    ensures
        paths::parent_of(below(below(p, nothing), name)) == paths::parent_of(below(p, name)),
{
    let before = text::split(p, '/');
    text::lemma_split_after(p, '/', nothing);
    text::lemma_split_after(p, '/', name);
    text::lemma_split_after(below(p, nothing), '/', name);
    text::lemma_split_nonempty(p, '/');
    let longer = before.push(nothing);
    let a = before.push(name);
    let b = longer.push(name);
    assert(a.take(before.len() as int) =~= before);
    assert(b.take(longer.len() as int) =~= longer);
    assert(longer.drop_last() =~= before);
    lemma_names_up_to_the_last(before);
    let j = paths::last_named(before);
    assert(a.take(j + 1) =~= b.take(j + 1));
    assert(below(p, name)[0] == p[0]);
    assert(below(below(p, nothing), name)[0] == p[0]);
}

/// An extension takes the place of what stands behind the last dot of the last name, and
/// is written behind a name without a dot; an empty one takes the dot along. A dot that
/// begins a name does not count, the directories before the name stay, and `..` is no
/// name.
pub proof fn extensions_stand_behind_the_last_dot(
    p: Seq<char>,
    front: Seq<char>,
    back: Seq<char>,
    extension: Seq<char>,
)
    requires
        front.len() > 0,
        front != seq!['.'],
        !front.contains('/'),
        !back.contains('/'),
        !back.contains('.'),
        extension.len() > 0,
    ensures
        ({
            let name = front + seq!['.'] + back;
            &&& paths::extended(name, extension) == front + seq!['.'] + extension
            &&& paths::extended(name, Seq::empty()) == front
            &&& paths::extended(below(p, name), extension) == below(
                p,
                front + seq!['.'] + extension,
            )
            &&& paths::extended(below(p, name), Seq::empty()) == below(p, front)
        }),
        back.len() > 0 ==> {
            &&& paths::extended(back, extension) == back + seq!['.'] + extension
            &&& paths::extended(back, Seq::empty()) == back
            &&& paths::extended(below(p, back), extension) == below(
                p,
                back + seq!['.'] + extension,
            )
            &&& paths::extended(seq!['.'] + back, extension) == seq!['.'] + back + seq!['.']
                + extension
        },
        paths::extended(below(p, seq!['.', '.']), extension) == below(p, seq!['.', '.']),
{
    let name = front + seq!['.'] + back;
    lemma_last_dot(front, back);
    lemma_no_dot(back);
    lemma_last_dot(Seq::empty(), back);
    assert(Seq::<char>::empty() + seq!['.'] + back =~= seq!['.'] + back);
    assert(name.take(front.len() as int) =~= front);
    assert(name[front.len() as int] == '.');
    assert(name.len() > 1);
    assert forall|i: int| 0 <= i < name.len() implies name[i] != '/' by {
        if i < front.len() {
            assert(front.contains(name[i]));
        } else if i > front.len() {
            assert(back.contains(name[i]));
        }
    }
    assert(name != seq!['.', '.']) by {
        if name == seq!['.', '.'] {
            assert(front.len() == 1 && front[0] == name[0]);
            assert(front =~= seq!['.']);
        }
    }
    assert(!idle(name));
    lemma_extended_name(p, name, extension);
    lemma_extended_name(p, name, Seq::empty());
    if back.len() > 0 {
        assert(back.contains(back[0]));
        assert(back != seq!['.'] && back != seq!['.', '.']) by {
            assert(back[0] != '.');
        }
        lemma_extended_name(p, back, extension);
        lemma_extended_name(p, back, Seq::empty());
        let hidden = seq!['.'] + back;
        assert(hidden[1] == back[0]);
        assert forall|i: int| 0 <= i < hidden.len() implies hidden[i] != '/' by {
            if i > 0 {
                assert(back.contains(hidden[i]));
            }
        }
        assert(hidden != seq!['.', '.']);
        lemma_extended_name(p, hidden, extension);
    }
    let up = seq!['.', '.'];
    assert(!up.contains('/'));
    text::lemma_split_after(p, '/', up);
    assert(text::split(p, '/').push(up).last() == up);
}

proof fn lemma_last_dot(front: Seq<char>, back: Seq<char>)
    requires
        !back.contains('.'),
    ensures
        paths::last_dot(front + seq!['.'] + back) == front.len(),
    decreases back.len(),
{
    let name = front + seq!['.'] + back;
    if back.len() == 0 {
        assert(name.last() == '.');
    } else {
        let init = back.drop_last();
        assert(name.drop_last() =~= front + seq!['.'] + init);
        assert(back.contains(back[back.len() - 1]));
        assert(name.last() == back[back.len() - 1]);
        assert forall|i: int| 0 <= i < init.len() implies init[i] != '.' by {
            assert(back.contains(back[i]));
        }
        lemma_last_dot(front, init);
    }
}

proof fn lemma_no_dot(name: Seq<char>)
    requires
        !name.contains('.'),
    ensures
        paths::last_dot(name) == -1,
    decreases name.len(),
{
    if name.len() > 0 {
        let init = name.drop_last();
        assert(name.contains(name[name.len() - 1]));
        assert forall|i: int| 0 <= i < init.len() implies init[i] != '.' by {
            assert(name.contains(name[i]));
        }
        lemma_no_dot(init);
    }
}

proof fn lemma_extended_name(p: Seq<char>, name: Seq<char>, extension: Seq<char>)
    requires
        !name.contains('/'),
        !idle(name),
        name != seq!['.', '.'],
        paths::stem(name) != seq!['.'],
    ensures
        ({
            let after = if extension.len() == 0 {
                paths::stem(name)
            } else {
                paths::stem(name) + seq!['.'] + extension
            };
            &&& paths::extended(name, extension) == after
            &&& paths::extended(below(p, name), extension) == below(p, after)
        }),
{
    lemma_is_one_piece(name);
    text::lemma_split_after(p, '/', name);
    text::lemma_split_nonempty(p, '/');
    text::joining_undoes_splitting(p, '/');
    let before = text::split(p, '/');
    let pieces = before.push(name);
    assert(pieces.last() == name);
    assert(pieces.take(before.len() as int) =~= before);
}

} // verus!

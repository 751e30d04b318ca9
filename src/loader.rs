//! The loader's pure steps: the names in a list typed at the prompt, and
//! the text that the files' contents make together.

use vstd::prelude::*;
use crate::text::{
    is_white_space, lemma_lines_text_append, lemma_lines_text_push, lines_text, push_char, views,
    white_space,
};

verus! {

/// The pieces of `s` between its White_Space characters, empty pieces kept:
/// `n` such characters make `n + 1` pieces.
pub open spec fn split_ws(s: Seq<char>) -> Seq<Seq<char>>
    decreases s.len(),
{
    if s.len() == 0 {
        seq![Seq::empty()]
    } else {
        let p = split_ws(s.drop_last());
        if white_space(s.last()) {
            p.push(Seq::empty())
        } else {
            p.update(p.len() - 1, p.last().push(s.last()))
        }
    }
}

/// The non-empty pieces among `pieces`, in order.
pub open spec fn keep_names(pieces: Seq<Seq<char>>) -> Seq<Seq<char>> {
    pieces.filter(|p: Seq<char>| p.len() > 0)
}

/// One more piece adds it to the names when it is not empty.
proof fn lemma_keep_names_push(pieces: Seq<Seq<char>>, p: Seq<char>)
    ensures
        keep_names(pieces.push(p)) == if p.len() > 0 {
            keep_names(pieces).push(p)
        } else {
            keep_names(pieces)
        },
{
    reveal(Seq::filter);
    assert(pieces.push(p).drop_last() =~= pieces);
}

/// The names in a whitespace-separated list: the non-empty runs of
/// characters between White_Space characters, in order. Blanks at either
/// end, or several in a row, name nothing.
pub fn split_filenames(files: &str) -> (r: Vec<String>)
    ensures
        views(r@) == keep_names(split_ws(files@)),
{
    let n = files.unicode_len();
    let mut names: Vec<String> = Vec::new();
    let mut start: usize = 0;
    let mut i: usize = 0;
    let ghost mut pieces = Seq::<Seq<char>>::empty();
    proof {
        reveal(Seq::filter);
    }
    assert(files@.subrange(0, 0) =~= Seq::<char>::empty());
    assert(views(names@) =~= keep_names(pieces));
    assert(pieces.push(files@.subrange(0, 0)) =~= split_ws(files@.subrange(0, 0)));
    while i < n
        invariant
            n == files@.len(),
            start <= i <= n,
            split_ws(files@.subrange(0, i as int)) == pieces.push(
                files@.subrange(start as int, i as int),
            ),
            views(names@) == keep_names(pieces),
        decreases n - i,
    {
        let c = files.get_char(i);
        let ghost pre = files@.subrange(0, i as int);
        assert(files@.subrange(0, i + 1).drop_last() =~= pre);
        assert(files@.subrange(0, i + 1).last() == c);
        if is_white_space(c) {
            let ghost piece = files@.subrange(start as int, i as int);
            if start < i {
                let name = files.substring_char(start, i).to_owned();
                let ghost before = names@;
                names.push(name);
                assert(views(names@) =~= views(before).push(name@));
            }
            proof {
                lemma_keep_names_push(pieces, piece);
                pieces = pieces.push(piece);
            }
            start = i + 1;
            assert(files@.subrange(start as int, i + 1) =~= Seq::<char>::empty());
        } else {
            assert(files@.subrange(start as int, i + 1) =~= files@.subrange(
                start as int,
                i as int,
            ).push(c));
        }
        i = i + 1;
    }
    let ghost piece = files@.subrange(start as int, n as int);
    if start < n {
        let name = files.substring_char(start, n).to_owned();
        let ghost before = names@;
        names.push(name);
        assert(views(names@) =~= views(before).push(name@));
    }
    proof {
        lemma_keep_names_push(pieces, piece);
    }
    assert(files@.subrange(0, n as int) =~= files@);
    names
}

/// The document that the files' contents make: each content in order, each
/// followed by a newline.
pub open spec fn sources_text(contents: Seq<Seq<char>>) -> Seq<char> {
    lines_text(contents)
}

/// Puts the contents of the files together into one document.
pub fn concat_sources(contents: &[String]) -> (r: String)
    ensures
        r@ == sources_text(views(contents@)),
{
    let mut buf = String::new();
    let mut i: usize = 0;
    while i < contents.len()
        invariant
            i <= contents@.len(),
            buf@ == sources_text(views(contents@.subrange(0, i as int))),
        decreases contents@.len() - i,
    {
        let ghost before = views(contents@.subrange(0, i as int));
        let ghost after = views(contents@.subrange(0, i + 1));
        assert(after.drop_last() =~= before);
        buf.append(contents[i].as_str());
        push_char(&mut buf, '\n');
        proof {
            lemma_lines_text_push(before, contents@[i as int]@);
            assert(after =~= before.push(contents@[i as int]@));
        }
        i = i + 1;
        assert(buf@ =~= sources_text(after));
    }
    assert(contents@.subrange(0, i as int) =~= contents@);
    buf
}

/// Loading two lists of files one after the other gives the two documents
/// one after the other: no file's content is changed by its neighbours.
pub proof fn lemma_sources_text_append(xs: Seq<Seq<char>>, ys: Seq<Seq<char>>)
    ensures
        sources_text(xs + ys) == sources_text(xs) + sources_text(ys),
{
    lemma_lines_text_append(xs, ys);
}

/// Two files `a` and `b` load as `a`, a newline, `b` and a newline: the
/// document is the contents themselves, with no change made to either.
pub proof fn lemma_sources_text_two(a: Seq<char>, b: Seq<char>)
    ensures
        sources_text(seq![a, b]) == a + seq!['\n'] + b + seq!['\n'],
{
    let none = Seq::<Seq<char>>::empty();
    assert(none.push(a) =~= seq![a]);
    assert(seq![a].push(b) =~= seq![a, b]);
    lemma_lines_text_push(none, a);
    lemma_lines_text_push(seq![a], b);
    assert(lines_text(none) == Seq::<char>::empty());
    assert(sources_text(seq![a, b]) =~= a + seq!['\n'] + b + seq!['\n']);
}

} // verus!

//! The text shown for an entry: the headword banner, and its senses on request.

use vstd::prelude::*;
use crate::text::{
    decimal, join_spec, join_string, lemma_lines_text_push, lines_text, push_char, push_decimal,
    push_repeat, repeat,
};
use crate::voca::{sense_views, SenseView, Voca, WordInfo};

verus! {

/// The width of the line that holds the headword, inside its two bars.
pub const BANNER_WIDTH: usize = 48;

pub open spec fn bold_on() -> Seq<char> {
    seq!['\x1b', '[', '1', 'm']
}

pub open spec fn bold_off() -> Seq<char> {
    seq!['\x1b', '[', '0', 'm']
}

/// The rule above and below the headword: as wide as the line with its bars.
pub open spec fn rule() -> Seq<char> {
    repeat('-', BANNER_WIDTH as nat + 2)
}

/// The headword centred in `BANNER_WIDTH` columns (an odd leftover space goes
/// to the right), or cut to its first `BANNER_WIDTH` characters.
pub open spec fn centered(w: Seq<char>) -> Seq<char> {
    if w.len() >= BANNER_WIDTH {
        w.subrange(0, BANNER_WIDTH as int)
    } else {
        let pad = (BANNER_WIDTH - w.len()) as nat;
        repeat(' ', pad / 2) + w + repeat(' ', (pad - pad / 2) as nat)
    }
}

/// The banner for a headword: bold on, a rule, the centred headword between
/// bars, a rule, bold off.
pub open spec fn banner(w: Seq<char>) -> Seq<char> {
    bold_on() + rule() + seq!['\n', '|'] + centered(w) + seq!['|', '\n'] + rule() + bold_off()
        + seq!['\n']
}

/// Renders the banner of entry `idx`.
pub fn display_voca_word(voca: &Voca, idx: usize) -> (r: String)
    requires
        idx < voca@.len(),
    ensures
        r@ == banner(voca@[idx as int].headword),
{
    let word = voca.voca[idx].word.as_str();
    let n = word.unicode_len();
    let mut out = String::new();
    proof {
        reveal_strlit("\x1b[1m");
        reveal_strlit("\x1b[0m");
    }
    out.append("\x1b[1m");
    push_repeat(&mut out, '-', BANNER_WIDTH + 2);
    push_char(&mut out, '\n');
    push_char(&mut out, '|');
    if n >= BANNER_WIDTH {
        out.append(word.substring_char(0, BANNER_WIDTH));
    } else {
        let pad = BANNER_WIDTH - n;
        push_repeat(&mut out, ' ', pad / 2);
        out.append(word);
        push_repeat(&mut out, ' ', pad - pad / 2);
    }
    push_char(&mut out, '|');
    push_char(&mut out, '\n');
    push_repeat(&mut out, '-', BANNER_WIDTH + 2);
    out.append("\x1b[0m");
    push_char(&mut out, '\n');
    assert(out@ =~= banner(voca@[idx as int].headword));
    out
}

pub open spec fn info_label() -> Seq<char> {
    "  Info "@
}

pub open spec fn meaning_label() -> Seq<char> {
    "  Meaning: "@
}

pub open spec fn synonyms_label() -> Seq<char> {
    "  Synonyms: "@
}

pub open spec fn example_label() -> Seq<char> {
    "  Example: "@
}

/// The lines shown for sense number `n` (counted from 1): its label, its
/// meaning, its synonyms joined by `", "` when it has a list of them (an
/// empty list shows a bare label), its example when it has one, and a blank
/// line.
pub open spec fn sense_lines(s: SenseView, n: nat) -> Seq<Seq<char>> {
    seq![info_label() + decimal(n), meaning_label() + s.meaning] + match s.synos {
        Some(v) => seq![synonyms_label() + join_spec(v)],
        None => Seq::empty(),
    } + match s.example {
        Some(e) => seq![example_label() + e],
        None => Seq::empty(),
    } + seq![Seq::empty()]
}

/// The text shown for a run of senses, numbered from 1 in order.
pub open spec fn senses_text(senses: Seq<SenseView>) -> Seq<char>
    decreases senses.len(),
{
    if senses.len() == 0 {
        Seq::empty()
    } else {
        senses_text(senses.drop_last()) + lines_text(sense_lines(senses.last(), senses.len()))
    }
}

/// Appends the lines of sense number `n`.
fn push_sense(out: &mut String, info: &WordInfo, n: usize)
    ensures
        final(out)@ == old(out)@ + lines_text(sense_lines(info@, n as nat)),
{
    let ghost s = info@;
    let ghost base = out@;
    let ghost lines = Seq::<Seq<char>>::empty();
    out.append("  Info ");
    push_decimal(out, n);
    push_char(out, '\n');
    proof {
        lemma_lines_text_push(lines, info_label() + decimal(n as nat));
        lines = lines.push(info_label() + decimal(n as nat));
        assert(out@ =~= base + lines_text(lines));
    }
    out.append("  Meaning: ");
    out.append(info.meaning.as_str());
    push_char(out, '\n');
    proof {
        lemma_lines_text_push(lines, meaning_label() + s.meaning);
        lines = lines.push(meaning_label() + s.meaning);
        assert(out@ =~= base + lines_text(lines));
    }
    match &info.synos {
        Some(synos) => {
            out.append("  Synonyms: ");
            let joined = join_string(synos.as_slice());
            out.append(joined.as_str());
            push_char(out, '\n');
            proof {
                let line = synonyms_label() + join_spec(s.synos.unwrap());
                lemma_lines_text_push(lines, line);
                lines = lines.push(line);
                assert(out@ =~= base + lines_text(lines));
            }
        },
        None => {},
    }
    match &info.example {
        Some(example) => {
            out.append("  Example: ");
            out.append(example.as_str());
            push_char(out, '\n');
            proof {
                let line = example_label() + s.example.unwrap();
                lemma_lines_text_push(lines, line);
                lines = lines.push(line);
                assert(out@ =~= base + lines_text(lines));
            }
        },
        None => {},
    }
    push_char(out, '\n');
    proof {
        lemma_lines_text_push(lines, Seq::empty());
        lines = lines.push(Seq::empty());
        assert(out@ =~= base + lines_text(lines));
        assert(lines =~= sense_lines(s, n as nat));
    }
}

/// Renders every sense of entry `idx`, in order.
pub fn show_answer(voca: &Voca, idx: usize) -> (r: String)
    requires
        idx < voca@.len(),
    ensures
        r@ == senses_text(voca@[idx as int].senses),
{
    let infos = &voca.voca[idx].info;
    let ghost all = sense_views(infos@);
    assert(all == voca@[idx as int].senses);
    let mut out = String::new();
    let mut i: usize = 0;
    while i < infos.len()
        invariant
            i <= infos@.len(),
            all == sense_views(infos@),
            out@ == senses_text(all.subrange(0, i as int)),
        decreases infos@.len() - i,
    {
        push_sense(&mut out, &infos[i], i + 1);
        proof {
            let next = all.subrange(0, i + 1);
            assert(next.drop_last() =~= all.subrange(0, i as int));
            assert(next.last() == infos@[i as int]@);
        }
        i = i + 1;
    }
    assert(all.subrange(0, i as int) =~= all);
    out
}

/// A sense without a list of synonyms shows no line that starts with the
/// synonyms label.
pub proof fn lemma_no_synonyms_no_line(s: SenseView, n: nat)
    requires
        s.synos is None,
    ensures
        forall|i: int|
            0 <= i < sense_lines(s, n).len() ==> !synonyms_label().is_prefix_of(
                #[trigger] sense_lines(s, n)[i],
            ),
{
    reveal_strlit("  Info ");
    reveal_strlit("  Meaning: ");
    reveal_strlit("  Synonyms: ");
    reveal_strlit("  Example: ");
    let lines = sense_lines(s, n);
    assert forall|i: int| 0 <= i < lines.len() implies !synonyms_label().is_prefix_of(
        #[trigger] lines[i],
    ) by {
        if synonyms_label().is_prefix_of(lines[i]) {
            assert(synonyms_label()[2] == 'S');
            assert(lines[i].subrange(0, synonyms_label().len() as int)[2] == lines[i][2]);
            assert(lines[i][2] == 'S');
            if i == 0 {
                assert(lines[i][2] == 'I');
            } else if i == 1 {
                assert(lines[i][2] == 'M');
            } else if i == lines.len() - 1 {
                assert(lines[i].len() == 0);
            } else {
                assert(lines[i][2] == 'E');
            }
        }
    }
}

/// A sense with a list of synonyms shows the synonyms label followed by the
/// list joined with `", "`; an empty list shows the bare label.
pub proof fn lemma_synonyms_line(s: SenseView, n: nat)
    requires
        s.synos is Some,
    ensures
        sense_lines(s, n).contains(synonyms_label() + join_spec(s.synos.unwrap())),
        s.synos.unwrap().len() == 0 ==> sense_lines(s, n).contains(synonyms_label()),
{
    let line = synonyms_label() + join_spec(s.synos.unwrap());
    assert(sense_lines(s, n)[2] == line);
    if s.synos.unwrap().len() == 0 {
        assert(line =~= synonyms_label());
    }
}

} // verus!

//! Character sequences: where one occurs inside another, and how command
//! tokens are joined into one line.

use vstd::prelude::*;
use vstd::string::StringExecFns;

verus! {

/// `part` stands in `text` at offset `at`.
pub open spec fn occurs_at(text: Seq<char>, part: Seq<char>, at: int) -> bool {
    &&& 0 <= at
    &&& at + part.len() <= text.len()
    &&& text.subrange(at, at + part.len()) == part
}

/// `part` is a contiguous piece of `text`.
pub open spec fn is_part_of(part: Seq<char>, text: Seq<char>) -> bool {
    exists|at: int| occurs_at(text, part, at)
}

/// The empty sequence is a piece of every text.
pub proof fn lemma_empty_is_part(text: Seq<char>)
    ensures
        is_part_of(Seq::empty(), text),
{
    assert(text.subrange(0, 0) =~= Seq::<char>::empty());
    assert(occurs_at(text, Seq::empty(), 0));
}

/// The tokens written one after another with a single space between neighbours.
pub open spec fn joined(tokens: Seq<Seq<char>>) -> Seq<char>
    decreases tokens.len(),
{
    if tokens.len() == 0 {
        Seq::empty()
    } else if tokens.len() == 1 {
        tokens[0]
    } else {
        joined(tokens.drop_last()) + seq![' '] + tokens.last()
    }
}

/// The characters of `text`, one element each.
pub fn chars_of(text: &str) -> (chars: Vec<char>)
    ensures
        chars@ == text@,
{
    let mut chars: Vec<char> = Vec::new();
    for c in it: text.chars()
        invariant
            it.seq() == text@,
            chars@ == it.seq().take(it.index()),
    {
        chars.push(c);
    }
    chars
}

/// Whether `part` stands in `text` at offset `at`.
pub fn stands_at(text: &Vec<char>, part: &Vec<char>, at: usize) -> (found: bool)
    ensures
        found == occurs_at(text@, part@, at as int),
{
    if part.len() > text.len() || at > text.len() - part.len() {
        return false;
    }
    let mut k: usize = 0;
    while k < part.len()
        invariant
            at + part.len() <= text.len(),
            k <= part.len(),
            forall|j: int| 0 <= j < k ==> text@[at + j] == part@[j],
        decreases part.len() - k,
    {
        if text[at + k] != part[k] {
            proof {
                let piece = text@.subrange(at as int, at + part.len());
                assert(piece[k as int] == text@[at + k]);
            }
            return false;
        }
        k += 1;
    }
    assert(text@.subrange(at as int, at + part.len()) =~= part@);
    true
}

/// Whether `part` is a contiguous piece of `text`.
pub fn contains(text: &Vec<char>, part: &Vec<char>) -> (found: bool)
    ensures
        found == is_part_of(part@, text@),
{
    if part.len() == 0 {
        proof {
            lemma_empty_is_part(text@);
            assert(part@ =~= Seq::<char>::empty());
        }
        return true;
    }
    if part.len() > text.len() {
        assert(forall|at: int| !occurs_at(text@, part@, at));
        return false;
    }
    let last: usize = text.len() - part.len();
    let mut at: usize = 0;
    while at <= last
        invariant
            0 < part.len() <= text.len(),
            last == text.len() - part.len(),
            at <= last + 1,
            forall|earlier: int| 0 <= earlier < at ==> !occurs_at(text@, part@, earlier),
        decreases last + 1 - at,
    {
        if stands_at(text, part, at) {
            return true;
        }
        at += 1;
    }
    assert(forall|at: int| !occurs_at(text@, part@, at));
    false
}

/// Neighbouring tokens joined by one space, as a command line is written.
pub fn join(tokens: &Vec<String>) -> (line: String)
    ensures
        line@ == joined(tokens.deep_view()),
{
    let mut line = String::new();
    let mut i: usize = 0;
    while i < tokens.len()
        invariant
            i <= tokens.len(),
            line@ == joined(tokens.deep_view().take(i as int)),
        decreases tokens.len() - i,
    {
        proof {
            let upto = tokens.deep_view().take(i + 1);
            assert(upto.drop_last() =~= tokens.deep_view().take(i as int));
            assert(upto.last() == tokens[i as int]@);
            reveal_strlit(" ");
            assert(" "@ =~= seq![' ']);
        }
        if i > 0 {
            line.append(" ");
        }
        line.append(tokens[i].as_str());
        i += 1;
        assert(line@ =~= joined(tokens.deep_view().take(i as int)));
    }
    assert(tokens.deep_view().take(tokens.len() as int) =~= tokens.deep_view());
    line
}

} // verus!

//! Matching a search term against a text, with or without regard to the
//! case of letters.
//!
//! Where case is put aside, it is the case of the letters `A` to `Z` and
//! `a` to `z`: see [`fold`]. A letter outside them, an accented one or one
//! of another script, matches only itself.

use vstd::prelude::*;

verus! {

/// A character with the letters `A` to `Z` turned into `a` to `z`. Every
/// other character stands for itself.
pub open spec fn fold(c: char) -> char {
    if 'A' <= c && c <= 'Z' {
        ((c as u8) + 32) as u8 as char
    } else {
        c
    }
}

/// Whether `term` stands in `name` at the place `at`, with the case of the
/// letters `A` to `Z` put aside.
pub open spec fn occurs_at(name: Seq<char>, term: Seq<char>, at: int) -> bool {
    &&& 0 <= at
    &&& at + term.len() <= name.len()
    &&& forall|j: int| 0 <= j < term.len() ==> fold(#[trigger] name[at + j]) == fold(term[j])
}

/// Whether `term` stands somewhere in `name`, with the case of the letters
/// `A` to `Z` put aside. The empty term stands in every name.
pub open spec fn contains_folded(name: Seq<char>, term: Seq<char>) -> bool {
    exists|at: int| occurs_at(name, term, at)
}

/// Whether `term` stands in `text` at the place `at`, letter for letter.
pub open spec fn occurs_exactly_at(text: Seq<char>, term: Seq<char>, at: int) -> bool {
    &&& 0 <= at
    &&& at + term.len() <= text.len()
    &&& forall|j: int| 0 <= j < term.len() ==> #[trigger] text[at + j] == term[j]
}

/// Whether `term` stands somewhere in `text`, letter for letter. The empty
/// term stands in every text.
pub open spec fn contains_exactly(text: Seq<char>, term: Seq<char>) -> bool {
    exists|at: int| occurs_exactly_at(text, term, at)
}

/// Whether `term` stands in `text` at the place `at`, with the case of
/// letters put aside or not.
pub open spec fn occurs(text: Seq<char>, term: Seq<char>, at: int, folded: bool) -> bool {
    if folded {
        occurs_at(text, term, at)
    } else {
        occurs_exactly_at(text, term, at)
    }
}

/// Folds one character.
pub fn fold_char(c: char) -> (folded: char)
    ensures
        folded == fold(c),
{
    if c >= 'A' && c <= 'Z' {
        ((c as u8) + 32) as char
    } else {
        c
    }
}

/// The characters of a text, one by one.
pub fn chars_of(text: &str) -> (chars: Vec<char>)
    ensures
        chars@ == text@,
{
    let mut chars: Vec<char> = Vec::new();
    for c in it: text.chars()
        invariant
            it.seq() == text@,
            chars@ == text@.take(it.index() as int),
    {
        chars.push(c);
        assert(text@.take(it.index() + 1) =~= text@.take(it.index() as int).push(c));
    }
    assert(text@.take(text@.len() as int) =~= text@);
    chars
}

/// Whether two terms are the same but for the case of the letters `A` to
/// `Z` in them.
pub open spec fn same_folded(a: Seq<char>, b: Seq<char>) -> bool {
    &&& a.len() == b.len()
    &&& forall|j: int| 0 <= j < a.len() ==> fold(#[trigger] a[j]) == fold(b[j])
}

/// Tests whether `term` stands in `text` at one place.
fn term_at(text: &Vec<char>, term: &Vec<char>, at: usize, folded: bool) -> (hit: bool)
    requires
        at + term.len() <= text.len(),
    ensures
        hit == occurs(text@, term@, at as int, folded),
{
    let mut j: usize = 0;
    while j < term.len()
        invariant
            j <= term.len(),
            at + term.len() <= text.len(),
            folded ==> forall|i: int|
                0 <= i < j ==> fold(#[trigger] text@[at + i]) == fold(term@[i]),
            !folded ==> forall|i: int| 0 <= i < j ==> #[trigger] text@[at + i] == term@[i],
        decreases term.len() - j,
    {
        let same = if folded {
            fold_char(text[at + j]) == fold_char(term[j])
        } else {
            text[at + j] == term[j]
        };
        if !same {
            assert(folded ==> fold(text@[at + j]) != fold(term@[j as int]));
            assert(!folded ==> text@[at + j] != term@[j as int]);
            return false;
        }
        j += 1;
    }
    true
}

/// Tests whether `term` stands somewhere in `text`.
fn find_term(text: &str, term: &str, folded: bool) -> (hit: bool)
    ensures
        hit == exists|at: int| occurs(text@, term@, at, folded),
{
    let text_chars = chars_of(text);
    let term_chars = chars_of(term);
    if term_chars.len() > text_chars.len() {
        assert forall|at: int| !occurs(text@, term@, at, folded) by {}
        return false;
    }
    let last: usize = text_chars.len() - term_chars.len();
    let mut at: usize = 0;
    loop
        invariant
            at <= last,
            last + term_chars.len() == text_chars.len(),
            text_chars@ == text@,
            term_chars@ == term@,
            forall|a: int| 0 <= a < at ==> !occurs(text@, term@, a, folded),
        decreases last - at,
    {
        if term_at(&text_chars, &term_chars, at, folded) {
            return true;
        }
        if at == last {
            assert forall|a: int| !occurs(text@, term@, a, folded) by {}
            return false;
        }
        at += 1;
    }
}

/// Tests whether `term` stands somewhere in `name`, with the case of the
/// letters `A` to `Z` put aside.
pub fn matches_term(name: &str, term: &str) -> (hit: bool)
    ensures
        hit == contains_folded(name@, term@),
{
    let hit = find_term(name, term, true);
    proof {
        if contains_folded(name@, term@) {
            let at = choose|at: int| occurs_at(name@, term@, at);
            assert(occurs(name@, term@, at, true));
        }
        if hit {
            let at = choose|at: int| occurs(name@, term@, at, true);
            assert(occurs_at(name@, term@, at));
        }
    }
    hit
}

/// Tests whether `term` stands somewhere in `text`, letter for letter.
pub fn contains_text(text: &str, term: &str) -> (hit: bool)
    ensures
        hit == contains_exactly(text@, term@),
{
    let hit = find_term(text, term, false);
    proof {
        if contains_exactly(text@, term@) {
            let at = choose|at: int| occurs_exactly_at(text@, term@, at);
            assert(occurs(text@, term@, at, false));
        }
        if hit {
            let at = choose|at: int| occurs(text@, term@, at, false);
            assert(occurs_exactly_at(text@, term@, at));
        }
    }
    hit
}

/// Two terms that differ only in the case of the letters `A` to `Z` stand in
/// the same names.
pub proof fn lemma_case_of_term_is_ignored(name: Seq<char>, a: Seq<char>, b: Seq<char>)
    requires
        same_folded(a, b),
    ensures
        contains_folded(name, a) == contains_folded(name, b),
{
    assert forall|at: int| occurs_at(name, a, at) == occurs_at(name, b, at) by {
        if occurs_at(name, a, at) {
            assert forall|j: int| 0 <= j < b.len() implies fold(#[trigger] name[at + j]) == fold(
                b[j],
            ) by {
                assert(fold(a[j]) == fold(b[j]));
            }
        }
        if occurs_at(name, b, at) {
            assert forall|j: int| 0 <= j < a.len() implies fold(#[trigger] name[at + j]) == fold(
                a[j],
            ) by {
                assert(fold(a[j]) == fold(b[j]));
            }
        }
    }
    if contains_folded(name, a) {
        let at = choose|at: int| occurs_at(name, a, at);
        assert(occurs_at(name, b, at));
    }
    if contains_folded(name, b) {
        let at = choose|at: int| occurs_at(name, b, at);
        assert(occurs_at(name, a, at));
    }
}

/// Two names that differ only in the case of the letters `A` to `Z` hold the
/// same terms.
pub proof fn lemma_case_of_name_is_ignored(a: Seq<char>, b: Seq<char>, term: Seq<char>)
    requires
        same_folded(a, b),
    ensures
        contains_folded(a, term) == contains_folded(b, term),
{
    assert forall|at: int| occurs_at(a, term, at) == occurs_at(b, term, at) by {
        if occurs_at(a, term, at) {
            assert forall|j: int| 0 <= j < term.len() implies fold(#[trigger] b[at + j]) == fold(
                term[j],
            ) by {
                assert(fold(a[at + j]) == fold(b[at + j]));
            }
        }
        if occurs_at(b, term, at) {
            assert forall|j: int| 0 <= j < term.len() implies fold(#[trigger] a[at + j]) == fold(
                term[j],
            ) by {
                assert(fold(a[at + j]) == fold(b[at + j]));
            }
        }
    }
    if contains_folded(a, term) {
        let at = choose|at: int| occurs_at(a, term, at);
        assert(occurs_at(b, term, at));
    }
    if contains_folded(b, term) {
        let at = choose|at: int| occurs_at(b, term, at);
        assert(occurs_at(a, term, at));
    }
}

} // verus!

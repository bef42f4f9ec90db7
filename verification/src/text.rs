//! Blank text, trimming, and where one text occurs in another.

use vstd::prelude::*;

verus! {

/// Whether `c`, a character beyond ASCII, has the Unicode property
/// White_Space, as `char::is_whitespace` reports it.
pub uninterp spec fn wide_white_space(c: char) -> bool;

/// Whether `c` has the Unicode property White_Space. In ASCII these are the
/// space and the five controls from the tab to the carriage return; beyond
/// ASCII the property is named, not written out.
pub open spec fn white_space(c: char) -> bool {
    if c <= '\x7f' {
        c == ' ' || ('\t' <= c && c <= '\r')
    } else {
        wide_white_space(c)
    }
}

/// `char::is_whitespace`: trusted to answer with the White_Space property of
/// its argument. For ASCII the answer is stated; beyond ASCII it is what
/// `wide_white_space` names. Together the two clauses say that the answer
/// is `white_space(c)`.
pub assume_specification[ char::is_whitespace ](c: char) -> (b: bool)
    ensures
        c <= '\x7f' ==> b == (c == ' ' || ('\t' <= c && c <= '\r')),
        c > '\x7f' ==> b == wide_white_space(c),
;

/// `s` without its leading white space.
pub open spec fn trimmed_start(s: Seq<char>) -> Seq<char>
    decreases s.len(),
{
    if s.len() > 0 && white_space(s[0]) {
        trimmed_start(s.drop_first())
    } else {
        s
    }
}

/// `s` without its trailing white space.
pub open spec fn trimmed_end(s: Seq<char>) -> Seq<char>
    decreases s.len(),
{
    if s.len() > 0 && white_space(s.last()) {
        trimmed_end(s.drop_last())
    } else {
        s
    }
}

/// `s` without its leading and trailing white space.
pub open spec fn trimmed(s: Seq<char>) -> Seq<char> {
    trimmed_end(trimmed_start(s))
}

/// Nothing is left of `s` once it is trimmed.
pub open spec fn blank(s: Seq<char>) -> bool {
    trimmed(s).len() == 0
}

/// Every character of `s` is white space.
pub open spec fn all_white_space(s: Seq<char>) -> bool {
    forall|i: int| 0 <= i < s.len() ==> white_space(#[trigger] s[i])
}

/// `needle` stands in `text` from position `at` on.
pub open spec fn occurs_at(needle: Seq<char>, text: Seq<char>, at: int) -> bool {
    &&& 0 <= at
    &&& at + needle.len() <= text.len()
    &&& text.subrange(at, at + needle.len()) == needle
}

/// `needle` stands somewhere in `text`, character for character.
pub open spec fn occurs_in(needle: Seq<char>, text: Seq<char>) -> bool {
    exists|at: int| occurs_at(needle, text, at)
}

proof fn lemma_white_space_trims_to_nothing(s: Seq<char>)
    requires
        all_white_space(s),
    ensures
        trimmed_start(s).len() == 0,
        trimmed_end(s).len() == 0,
    decreases s.len(),
{
    if s.len() > 0 {
        assert(white_space(s[0]));
        assert(white_space(s[s.len() - 1]));
        lemma_white_space_trims_to_nothing(s.drop_first());
        lemma_white_space_trims_to_nothing(s.drop_last());
    }
}

proof fn lemma_trimmed_start_begins_with_ink(s: Seq<char>)
    requires
        !all_white_space(s),
    ensures
        trimmed_start(s).len() > 0,
        !white_space(trimmed_start(s)[0]),
    decreases s.len(),
{
    let i = choose|i: int| 0 <= i < s.len() && !white_space(#[trigger] s[i]);
    if white_space(s[0]) {
        assert(s.drop_first()[i - 1] == s[i]);
        lemma_trimmed_start_begins_with_ink(s.drop_first());
    }
}

proof fn lemma_trimmed_end_keeps_ink(s: Seq<char>, i: int)
    requires
        0 <= i < s.len(),
        !white_space(s[i]),
    ensures
        trimmed_end(s).len() > i,
    decreases s.len(),
{
    if white_space(s.last()) {
        assert(s.drop_last()[i] == s[i]);
        lemma_trimmed_end_keeps_ink(s.drop_last(), i);
    }
}

/// A text trims to nothing exactly when all of it is white space.
pub proof fn lemma_blank_is_all_white_space(s: Seq<char>)
    ensures
        blank(s) <==> all_white_space(s),
{
    if all_white_space(s) {
        lemma_white_space_trims_to_nothing(s);
        assert(trimmed_start(s) =~= Seq::<char>::empty());
    } else {
        lemma_trimmed_start_begins_with_ink(s);
        lemma_trimmed_end_keeps_ink(trimmed_start(s), 0);
    }
}

/// Whether nothing is left of `s` once it is trimmed: whether `s` is empty
/// or all white space.
pub fn is_blank(s: &str) -> (b: bool)
    ensures
        b == blank(s@),
        b == all_white_space(s@),
{
    broadcast use vstd::string::group_string_axioms;

    proof {
        lemma_blank_is_all_white_space(s@);
    }
    for c in it: s.chars()
        invariant
            it.seq() == s@,
            blank(s@) <==> all_white_space(s@),
            forall|i: int| 0 <= i < it.index() ==> white_space(#[trigger] s@[i]),
    {
        if !c.is_whitespace() {
            return false;
        }
    }
    true
}

} // verus!

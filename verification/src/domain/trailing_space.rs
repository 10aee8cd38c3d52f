//! White space at the end of a line does not count: a text with more of it
//! has the same normalized form, and so is as much of a cow.

use crate::domain::cow_txt::{
    cow_is_present, first_position, is_whitespace, lemma_first_position,
    lemma_first_position_is, lemma_the_expected_text_is_a_cow, lines, normalized, trim,
    trim_end, trim_start, trimmed_lines,
};
use vstd::prelude::*;

verus! {

/// Whether `c` is white space that ends no line.
pub open spec fn is_space(c: char) -> bool {
    is_whitespace(c) && c != '\n'
}

/// Whether a line of `s` ends at `at`: the text ends there, or a line feed
/// stands there.
pub open spec fn line_ends_at(s: Seq<char>, at: int) -> bool {
    0 <= at <= s.len() && (at == s.len() || s[at] == '\n')
}

/// White space to be put into a text: what, and where.
pub struct Padding {
    pub at: int,
    pub space: char,
}

/// `s` with the paddings put in, one after the other, each at its place in
/// what the ones before have made of the text.
pub open spec fn padded(s: Seq<char>, paddings: Seq<Padding>) -> Seq<char>
    decreases paddings.len(),
{
    if paddings.len() == 0 {
        s
    } else {
        padded(s, paddings.drop_last()).insert(paddings.last().at, paddings.last().space)
    }
}

/// Whether each padding puts white space that ends no line at the end of a
/// line.
pub open spec fn at_line_ends(s: Seq<char>, paddings: Seq<Padding>) -> bool
    decreases paddings.len(),
{
    paddings.len() == 0 || {
        &&& at_line_ends(s, paddings.drop_last())
        &&& is_space(paddings.last().space)
        &&& line_ends_at(padded(s, paddings.drop_last()), paddings.last().at)
    }
}

/// White space at the very end is trimmed away with the rest.
pub proof fn lemma_trim_end_of_pushed_space(s: Seq<char>, space: char)
    requires
        is_whitespace(space),
    ensures
        trim_end(s.push(space)) == trim_end(s),
{
    assert(s.push(space).drop_last() =~= s);
}

/// White space put into the white space at the start is trimmed away with
/// it.
pub proof fn lemma_space_in_leading_space(s: Seq<char>, at: int, space: char)
    requires
        is_whitespace(space),
        0 <= at <= s.len(),
        forall|k: int| 0 <= k < at ==> is_whitespace(s[k]),
    ensures
        trim_start(s.insert(at, space)) == trim_start(s),
    decreases at,
{
    let more = s.insert(at, space);
    if at == 0 {
        assert(more.drop_first() =~= s);
    } else {
        assert(is_whitespace(s[0]));
        assert(more.drop_first() =~= s.drop_first().insert(at - 1, space));
        assert forall|k: int| 0 <= k < at - 1 implies is_whitespace(s.drop_first()[k]) by {
            assert(s.drop_first()[k] == s[k + 1]);
        }
        lemma_space_in_leading_space(s.drop_first(), at - 1, space);
    }
}

/// White space put in after something that is none stays where it is when
/// the start is trimmed: it only moves with what is cut off before it.
pub proof fn lemma_space_after_leading_space(s: Seq<char>, at: int, space: char, k: int)
    requires
        0 <= k < at <= s.len(),
        !is_whitespace(s[k]),
    ensures
        ({
            let cut = s.len() - trim_start(s).len();
            &&& 0 <= cut <= k
            &&& trim_start(s) == s.skip(cut)
            &&& trim_start(s.insert(at, space)) == trim_start(s).insert(at - cut, space)
        }),
    decreases s.len(),
{
    let more = s.insert(at, space);
    if is_whitespace(s[0]) {
        let rest = s.drop_first();
        assert(more.drop_first() =~= rest.insert(at - 1, space));
        assert(rest[k - 1] == s[k]);
        lemma_space_after_leading_space(rest, at - 1, space, k - 1);
        let cut = rest.len() - trim_start(rest).len();
        assert(rest.skip(cut) =~= s.skip(cut + 1));
    } else {
        assert(s.skip(0) =~= s);
        assert(more[0] == s[0]);
    }
}

/// White space put into the white space at the end is trimmed away with
/// it.
pub proof fn lemma_space_in_trailing_space(s: Seq<char>, at: int, space: char)
    requires
        is_whitespace(space),
        0 <= at <= s.len(),
        forall|k: int| at <= k < s.len() ==> is_whitespace(s[k]),
    ensures
        trim_end(s.insert(at, space)) == trim_end(s),
    decreases s.len() - at,
{
    let more = s.insert(at, space);
    if at == s.len() {
        assert(more =~= s.push(space));
        lemma_trim_end_of_pushed_space(s, space);
    } else {
        assert(is_whitespace(s.last()));
        assert(more.last() == s.last());
        assert(more.drop_last() =~= s.drop_last().insert(at, space));
        assert forall|k: int| at <= k < s.drop_last().len() implies is_whitespace(
            s.drop_last()[k],
        ) by {
            assert(s.drop_last()[k] == s[k]);
        }
        lemma_space_in_trailing_space(s.drop_last(), at, space);
    }
}

/// White space put in before something that is none stays where it is when
/// the end is trimmed.
pub proof fn lemma_space_before_trailing_space(s: Seq<char>, at: int, space: char, k: int)
    requires
        0 <= at <= k < s.len(),
        !is_whitespace(s[k]),
    ensures
        k < trim_end(s).len() <= s.len(),
        trim_end(s) == s.take(trim_end(s).len() as int),
        trim_end(s.insert(at, space)) == trim_end(s).insert(at, space),
    decreases s.len(),
{
    let more = s.insert(at, space);
    assert(more.last() == s.last());
    if is_whitespace(s.last()) {
        let front = s.drop_last();
        assert(more.drop_last() =~= front.insert(at, space));
        assert(front[k] == s[k]);
        lemma_space_before_trailing_space(front, at, space, k);
        assert(front.take(trim_end(front).len() as int) =~= s.take(trim_end(front).len() as int));
    } else {
        assert(s.take(s.len() as int) =~= s);
    }
}

/// What a function makes of a line and of those after it is what it makes
/// of the line, and then what it makes of those after it.
pub proof fn lemma_map_of_first_and_rest<A, B>(first: A, rest: Seq<A>, f: spec_fn(A) -> B)
    ensures
        (seq![first] + rest).map_values(f) == seq![f(first)] + rest.map_values(f),
{
    assert((seq![first] + rest).map_values(f) =~= seq![f(first)] + rest.map_values(f));
}

/// White space put in before a line feed is trimmed away with the line
/// that the line feed ends: the lines, each trimmed, are what they were.
pub proof fn lemma_space_before_line_feed(s: Seq<char>, at: int, space: char)
    requires
        is_space(space),
        0 <= at < s.len(),
        s[at] == '\n',
    ensures
        lines(s.insert(at, space)).map_values(|line: Seq<char>| trim_end(line)) == lines(
            s,
        ).map_values(|line: Seq<char>| trim_end(line)),
    decreases s.len(),
{
    let more = s.insert(at, space);
    let trimmed = |line: Seq<char>| trim_end(line);
    lemma_first_position(s, '\n');
    let first = first_position(s, '\n')->0;
    if first == at {
        assert forall|j: int| 0 <= j < at + 1 implies more[j] != '\n' by {
            if j < at {
                assert(more[j] == s[j]);
            }
        }
        assert(more[at + 1] == '\n');
        lemma_first_position_is(more, '\n', at + 1);
        assert(more.take(at + 1) =~= s.take(at).push(space));
        assert(more.skip(at + 2) =~= s.skip(at + 1));
        lemma_trim_end_of_pushed_space(s.take(at), space);
        lemma_map_of_first_and_rest(more.take(at + 1), lines(more.skip(at + 2)), trimmed);
        lemma_map_of_first_and_rest(s.take(at), lines(s.skip(at + 1)), trimmed);
    } else {
        assert forall|j: int| 0 <= j < first implies more[j] != '\n' by {
            assert(more[j] == s[j]);
        }
        assert(more[first] == '\n');
        lemma_first_position_is(more, '\n', first);
        assert(more.take(first) =~= s.take(first));
        assert(more.skip(first + 1) =~= s.skip(first + 1).insert(at - first - 1, space));
        lemma_space_before_line_feed(s.skip(first + 1), at - first - 1, space);
        lemma_map_of_first_and_rest(more.take(first), lines(more.skip(first + 1)), trimmed);
        lemma_map_of_first_and_rest(s.take(first), lines(s.skip(first + 1)), trimmed);
    }
}

/// White space put at the end of a line changes nothing of the normalized
/// form of a text.
pub proof fn lemma_space_at_the_end_of_a_line(s: Seq<char>, at: int, space: char)
    requires
        is_space(space),
        line_ends_at(s, at),
    ensures
        normalized(s.insert(at, space)) == normalized(s),
{
    let more = s.insert(at, space);
    if forall|k: int| 0 <= k < at ==> is_whitespace(s[k]) {
        lemma_space_in_leading_space(s, at, space);
    } else {
        let k = choose|k: int| 0 <= k < at && !is_whitespace(s[k]);
        lemma_space_after_leading_space(s, at, space, k);
        let cut = s.len() - trim_start(s).len();
        let start = trim_start(s);
        let place = at - cut;
        assert(trim_start(more) == start.insert(place, space));
        if forall|j: int| place <= j < start.len() ==> is_whitespace(start[j]) {
            lemma_space_in_trailing_space(start, place, space);
        } else {
            let j = choose|j: int| place <= j < start.len() && !is_whitespace(start[j]);
            lemma_space_before_trailing_space(start, place, space, j);
            assert(start[place] == s[at]);
            assert(trim(s)[place] == '\n');
            lemma_space_before_line_feed(trim(s), place, space);
            assert(trimmed_lines(trim(more)) == trimmed_lines(trim(s)));
        }
    }
}

/// White space put at the ends of lines, however much of it and at however
/// many lines, changes nothing of the normalized form of a text.
pub proof fn lemma_space_at_the_ends_of_lines(s: Seq<char>, paddings: Seq<Padding>)
    requires
        at_line_ends(s, paddings),
    ensures
        normalized(padded(s, paddings)) == normalized(s),
    decreases paddings.len(),
{
    if paddings.len() > 0 {
        lemma_space_at_the_ends_of_lines(s, paddings.drop_last());
        lemma_space_at_the_end_of_a_line(
            padded(s, paddings.drop_last()),
            paddings.last().at,
            paddings.last().space,
        );
    }
}

/// The expected text with white space put at the ends of lines is a cow.
pub proof fn lemma_space_at_the_ends_of_lines_is_no_matter(
    reference: Seq<char>,
    paddings: Seq<Padding>,
)
    requires
        at_line_ends(reference, paddings),
    ensures
        cow_is_present(padded(reference, paddings), reference),
{
    lemma_space_at_the_ends_of_lines(reference, paddings);
    lemma_the_expected_text_is_a_cow(padded(reference, paddings), reference);
}

} // verus!

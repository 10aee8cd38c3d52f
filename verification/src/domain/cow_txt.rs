//! The text that a cow serves, and the test that tells whether a downloaded
//! text is a cow.

use crate::errors::Error;
use crate::text;
use vstd::prelude::*;

verus! {

/// A text is a cow if its distance to the expected text is below this.
pub const MAX_DISTANCE: usize = 100;

/// Whether `c` is white space: a character with the Unicode property
/// `White_Space`.
pub open spec fn is_whitespace(c: char) -> bool {
    let code = c as u32;
    ||| 0x09 <= code <= 0x0D
    ||| code == 0x20
    ||| code == 0x85
    ||| code == 0xA0
    ||| code == 0x1680
    ||| 0x2000 <= code <= 0x200A
    ||| code == 0x2028
    ||| code == 0x2029
    ||| code == 0x202F
    ||| code == 0x205F
    ||| code == 0x3000
}

/// `s` without the white space at its end.
pub open spec fn trim_end(s: Seq<char>) -> Seq<char>
    decreases s.len(),
{
    if s.len() > 0 && is_whitespace(s.last()) {
        trim_end(s.drop_last())
    } else {
        s
    }
}

/// `s` without the white space at its start.
pub open spec fn trim_start(s: Seq<char>) -> Seq<char>
    decreases s.len(),
{
    if s.len() > 0 && is_whitespace(s.first()) {
        trim_start(s.drop_first())
    } else {
        s
    }
}

/// `s` without the white space at its start and at its end.
pub open spec fn trim(s: Seq<char>) -> Seq<char> {
    trim_end(trim_start(s))
}

/// The position of the first `c` in `s`.
pub open spec fn first_position(s: Seq<char>, c: char) -> Option<int>
    decreases s.len(),
{
    if s.len() == 0 {
        None
    } else if s.first() == c {
        Some(0)
    } else {
        match first_position(s.drop_first(), c) {
            Some(i) => Some(i + 1),
            None => None,
        }
    }
}

/// The lines of `s`: what stands between its line feeds. A line feed at the
/// very end of `s` starts no further line, and the empty text has no line.
pub open spec fn lines(s: Seq<char>) -> Seq<Seq<char>>
    decreases s.len(),
    via lines_decreases
{
    if s.len() == 0 {
        Seq::empty()
    } else {
        match first_position(s, '\n') {
            None => seq![s],
            Some(i) => seq![s.take(i)] + lines(s.skip(i + 1)),
        }
    }
}

#[via_fn]
proof fn lines_decreases(s: Seq<char>) {
    lemma_first_position(s, '\n');
}

/// The lines put together again, with a line feed between each two.
pub open spec fn joined(lines: Seq<Seq<char>>) -> Seq<char>
    decreases lines.len(),
{
    if lines.len() == 0 {
        Seq::empty()
    } else if lines.len() == 1 {
        lines[0]
    } else {
        joined(lines.drop_last()) + seq!['\n'] + lines.last()
    }
}

/// `s` with the white space removed that ends each of its lines.
pub open spec fn trimmed_lines(s: Seq<char>) -> Seq<char> {
    joined(lines(s).map_values(|line: Seq<char>| trim_end(line)))
}

/// The form in which two texts are compared: without white space around
/// the whole and at the end of each line.
pub open spec fn normalized(s: Seq<char>) -> Seq<char> {
    trimmed_lines(trim(s))
}

/// The least of three numbers.
pub open spec fn min3(x: nat, y: nat, z: nat) -> nat {
    if x <= y && x <= z {
        x
    } else if y <= z {
        y
    } else {
        z
    }
}

/// The Levenshtein distance of `a` and `b`: the least number of characters
/// to insert, delete or replace that turns `a` into `b`.
pub open spec fn edit_distance(a: Seq<char>, b: Seq<char>) -> nat
    decreases a.len() + b.len(),
{
    if a.len() == 0 {
        b.len()
    } else if b.len() == 0 {
        a.len()
    } else {
        min3(
            edit_distance(a.drop_last(), b) + 1,
            edit_distance(a, b.drop_last()) + 1,
            edit_distance(a.drop_last(), b.drop_last()) + if a.last() == b.last() {
                0nat
            } else {
                1nat
            },
        )
    }
}

/// A text is at no distance from itself.
pub proof fn lemma_no_distance_to_itself(a: Seq<char>)
    ensures
        edit_distance(a, a) == 0,
    decreases a.len(),
{
    if a.len() > 0 {
        lemma_no_distance_to_itself(a.drop_last());
    }
}

/// The distance is the same in both directions.
pub proof fn lemma_distance_is_symmetric(a: Seq<char>, b: Seq<char>)
    ensures
        edit_distance(a, b) == edit_distance(b, a),
    decreases a.len() + b.len(),
{
    if a.len() > 0 && b.len() > 0 {
        lemma_distance_is_symmetric(a.drop_last(), b);
        lemma_distance_is_symmetric(a, b.drop_last());
        lemma_distance_is_symmetric(a.drop_last(), b.drop_last());
    }
}

/// Two texts are at least as far from each other as their lengths are, and
/// no further than the longer of them is long.
pub proof fn lemma_distance_and_lengths(a: Seq<char>, b: Seq<char>)
    ensures
        edit_distance(a, b) >= a.len() - b.len(),
        edit_distance(a, b) >= b.len() - a.len(),
        edit_distance(a, b) <= a.len() || edit_distance(a, b) <= b.len(),
    decreases a.len() + b.len(),
{
    if a.len() > 0 && b.len() > 0 {
        lemma_distance_and_lengths(a.drop_last(), b);
        lemma_distance_and_lengths(a, b.drop_last());
        lemma_distance_and_lengths(a.drop_last(), b.drop_last());
    }
}

/// Whether `content` counts as the cow that `reference` is.
pub open spec fn cow_is_present(content: Seq<char>, reference: Seq<char>) -> bool {
    edit_distance(normalized(content), normalized(reference)) < MAX_DISTANCE
}

/// The expected text is itself a cow, and so is every text that differs
/// from it only in what normalizing removes.
pub proof fn lemma_the_expected_text_is_a_cow(content: Seq<char>, reference: Seq<char>)
    requires
        normalized(content) == normalized(reference),
    ensures
        cow_is_present(content, reference),
{
    lemma_no_distance_to_itself(normalized(reference));
}

/// A text that is a hundred characters or more shorter or longer than the
/// expected text, both normalized, is no cow.
pub proof fn lemma_a_text_of_another_length_is_no_cow(content: Seq<char>, reference: Seq<char>)
    requires
        normalized(content).len() + MAX_DISTANCE <= normalized(reference).len() || normalized(
            reference,
        ).len() + MAX_DISTANCE <= normalized(content).len(),
    ensures
        !cow_is_present(content, reference),
{
    lemma_distance_and_lengths(normalized(content), normalized(reference));
}

/// Calls `edit_distance::edit_distance`. Trusted: that it returns the
/// Levenshtein distance of the two texts, counted in characters, as the
/// crate's documentation says.
#[verifier::external_body]
fn levenshtein(a: &str, b: &str) -> (distance: usize)
    ensures
        distance == edit_distance(a@, b@),
{
    edit_distance::edit_distance(a, b)
}

fn whitespace(c: char) -> (b: bool)
    ensures
        b == is_whitespace(c),
{
    let code: u32 = c as u32;
    (0x09 <= code && code <= 0x0D) || code == 0x20 || code == 0x85 || code == 0xA0 || code
        == 0x1680 || (0x2000 <= code && code <= 0x200A) || code == 0x2028 || code == 0x2029
        || code == 0x202F || code == 0x205F || code == 0x3000
}

/// The end of `s[from..to]` once the white space at its end is removed.
fn trimmed_end(s: &Vec<char>, from: usize, to: usize) -> (end: usize)
    requires
        from <= to <= s.len(),
    ensures
        from <= end <= to,
        trim_end(s@.subrange(from as int, to as int)) == s@.subrange(from as int, end as int),
{
    let mut end: usize = to;
    while end > from && whitespace(s[end - 1])
        invariant
            from <= end <= to <= s.len(),
            trim_end(s@.subrange(from as int, to as int)) == trim_end(
                s@.subrange(from as int, end as int),
            ),
        decreases end,
    {
        assert(s@.subrange(from as int, end as int).drop_last() =~= s@.subrange(
            from as int,
            end - 1,
        ));
        end -= 1;
    }
    end
}

/// The start of `s[from..to]` once the white space at its start is removed.
fn trimmed_start(s: &Vec<char>, from: usize, to: usize) -> (start: usize)
    requires
        from <= to <= s.len(),
    ensures
        from <= start <= to,
        trim_start(s@.subrange(from as int, to as int)) == s@.subrange(start as int, to as int),
{
    let mut start: usize = from;
    while start < to && whitespace(s[start])
        invariant
            from <= start <= to <= s.len(),
            trim_start(s@.subrange(from as int, to as int)) == trim_start(
                s@.subrange(start as int, to as int),
            ),
        decreases to - start,
    {
        assert(s@.subrange(start as int, to as int).drop_first() =~= s@.subrange(
            start + 1,
            to as int,
        ));
        start += 1;
    }
    start
}

/// `first_position` gives the position of a `c` before which no `c` stands.
pub proof fn lemma_first_position(s: Seq<char>, c: char)
    ensures
        match first_position(s, c) {
            Some(i) => 0 <= i < s.len() && s[i] == c && forall|j: int| 0 <= j < i ==> s[j] != c,
            None => forall|j: int| 0 <= j < s.len() ==> s[j] != c,
        },
    decreases s.len(),
{
    if s.len() > 0 && s.first() != c {
        let rest = s.drop_first();
        lemma_first_position(rest, c);
        assert forall|j: int| 0 <= j < rest.len() implies rest[j] == s[j + 1] by {}
        match first_position(rest, c) {
            Some(i) => {
                assert forall|j: int| 0 <= j < i + 1 implies s[j] != c by {
                    if j > 0 {
                        assert(rest[j - 1] != c);
                    }
                }
            },
            None => {
                assert forall|j: int| 0 <= j < s.len() implies s[j] != c by {
                    if j > 0 {
                        assert(rest[j - 1] != c);
                    }
                }
            },
        }
    }
}

/// A position of `c` before which no `c` stands is what `first_position`
/// gives, and without any `c` it gives none.
pub proof fn lemma_first_position_is(s: Seq<char>, c: char, i: int)
    requires
        0 <= i <= s.len(),
        forall|j: int| 0 <= j < i ==> s[j] != c,
        i < s.len() ==> s[i] == c,
    ensures
        first_position(s, c) == if i < s.len() {
            Some(i)
        } else {
            None
        },
{
    lemma_first_position(s, c);
}

/// The lines of `s[from..to]`, each without the white space at its end,
/// put together again.
fn trim_lines(s: &Vec<char>, from: usize, to: usize) -> (out: Vec<char>)
    requires
        from <= to <= s.len(),
    ensures
        out@ == trimmed_lines(s@.subrange(from as int, to as int)),
{
    let ghost whole = s@.subrange(from as int, to as int);
    let ghost trim_line = |line: Seq<char>| trim_end(line);
    let mut out: Vec<char> = Vec::new();
    let ghost mut done: Seq<Seq<char>> = Seq::empty();
    let mut start: usize = from;
    let mut i: usize = from;
    while i < to
        invariant
            from <= start <= i <= to <= s.len(),
            whole == s@.subrange(from as int, to as int),
            trim_line == |line: Seq<char>| trim_end(line),
            forall|j: int| start <= j < i ==> s@[j] != '\n',
            lines(whole) == done + lines(s@.subrange(start as int, to as int)),
            out@ == joined(done.map_values(trim_line)),
            start > from <==> done.len() > 0,
        decreases to - i,
    {
        if s[i] == '\n' {
            let ghost rest = s@.subrange(start as int, to as int);
            let ghost line = s@.subrange(start as int, i as int);
            proof {
                lemma_first_position_is(rest, '\n', i - start);
                assert(rest.take(i - start) =~= line);
                assert(rest.skip(i - start + 1) =~= s@.subrange(i + 1, to as int));
                lemma_joined_push(done.map_values(trim_line), trim_end(line));
                assert(done.push(line).map_values(trim_line) =~= done.map_values(trim_line).push(
                    trim_end(line),
                ));
                assert(done + (seq![line] + lines(s@.subrange(i + 1, to as int))) =~= done.push(
                    line,
                ) + lines(s@.subrange(i + 1, to as int)));
            }
            let end = trimmed_end(s, start, i);
            if start > from {
                out.push('\n');
            }
            text::push_range(&mut out, s, start, end);
            proof {
                done = done.push(line);
            }
            start = i + 1;
        }
        i += 1;
    }
    if start < to {
        let ghost rest = s@.subrange(start as int, to as int);
        proof {
            lemma_first_position_is(rest, '\n', rest.len() as int);
            lemma_joined_push(done.map_values(trim_line), trim_end(rest));
            assert(done.push(rest).map_values(trim_line) =~= done.map_values(trim_line).push(
                trim_end(rest),
            ));
            assert(done + seq![rest] =~= done.push(rest));
        }
        let end = trimmed_end(s, start, to);
        if start > from {
            out.push('\n');
        }
        text::push_range(&mut out, s, start, end);
    }
    out
}

/// Joining one line more puts a line feed before it, unless it is the
/// first.
pub proof fn lemma_joined_push(lines: Seq<Seq<char>>, line: Seq<char>)
    ensures
        joined(lines.push(line)) == if lines.len() == 0 {
            line
        } else {
            joined(lines) + seq!['\n'] + line
        },
{
    assert(lines.push(line).drop_last() =~= lines);
}

/// The form in which two texts are compared.
pub fn normalize(s: &str) -> (out: String)
    ensures
        out@ == normalized(s@),
{
    let chars = text::to_chars(s);
    assert(chars@.subrange(0, chars.len() as int) =~= chars@);
    let start = trimmed_start(&chars, 0, chars.len());
    let end = trimmed_end(&chars, start, chars.len());
    let out = trim_lines(&chars, start, end);
    text::from_chars(&out)
}

/// The text of a cow, as it was downloaded.
#[derive(Debug)]
pub struct CowTxt {
    content: String,
}

impl View for CowTxt {
    type V = Seq<char>;

    closed spec fn view(&self) -> Seq<char> {
        self.content@
    }
}

impl CowTxt {
    /// Accepts `content` if it counts as the cow that `reference` is, and
    /// hands it back in the error if not.
    pub fn new(content: String, reference: &str) -> (res: Result<CowTxt, Error>)
        ensures
            match res {
                Ok(cow_txt) => cow_is_present(content@, reference@) && cow_txt@ == content@,
                Err(e) => !cow_is_present(content@, reference@) && e == Error::CowIsNotPresent(
                    content,
                ),
            },
    {
        if !Self::cow_is_present(content.as_str(), reference) {
            return Err(Error::CowIsNotPresent(content));
        }
        Ok(CowTxt { content })
    }

    /// Whether `s` counts as the cow that `reference` is: whether the
    /// distance between the two, both normalized, is below `MAX_DISTANCE`.
    pub fn cow_is_present(s: &str, reference: &str) -> (present: bool)
        ensures
            present == cow_is_present(s@, reference@),
    {
        let a = normalize(s);
        let b = normalize(reference);
        let distance = levenshtein(a.as_str(), b.as_str());
        distance < MAX_DISTANCE
    }

    /// `s` with the white space removed that ends each of its lines.
    pub fn trim_trailing_whitespace_from_each_line(s: &str) -> (out: String)
        ensures
            out@ == trimmed_lines(s@),
    {
        let chars = text::to_chars(s);
        assert(chars@.subrange(0, chars.len() as int) =~= chars@);
        let out = trim_lines(&chars, 0, chars.len());
        text::from_chars(&out)
    }

    /// The text as it was downloaded.
    pub fn content(&self) -> (content: &str)
        ensures
            content@ == self@,
    {
        self.content.as_str()
    }
}

} // verus!

//! Reading the text of a Tripos MOL2 file.
//!
//! The text is taken line by line. A line that begins with `@<TRIPOS>` opens
//! a section; within the sections `@<TRIPOS>ATOM` and `@<TRIPOS>BOND` every
//! other line with enough words is a record. A word is a run of characters
//! between white space.
//!
//! [`scan`] finds the records. It reads the integers of a bond itself and
//! points at the words of an atom's coordinates, which are real numbers and
//! for the host to read.

use vstd::prelude::*;

verus! {

/// A range of positions in the text, from `start` up to but not including
/// `end`.
#[derive(Clone, Copy, Debug, PartialEq, Eq, Structural)]
pub struct Span {
    pub start: usize,
    pub end: usize,
}

/// A record of the file.
#[derive(Clone, Copy, Debug, PartialEq, Eq, Structural)]
pub enum Mol2Record {
    /// A line of the atom section with at least six words: where the three
    /// coordinates stand, and where the element's symbol stands, which is
    /// the sixth word up to its first `.`. The line describes an atom only if
    /// each coordinate reads as a number.
    Atom { x: Span, y: Span, z: Span, element: Span },
    /// A line of the bond section with at least four words, of which the
    /// second and the third read as the numbers of two atoms, counted from 1,
    /// and the fourth gives the order: 2 for `2`, 3 for `3`, 1 for anything
    /// else.
    Bond { a_id: usize, b_id: usize, order: u8 },
}

/// The section that a line belongs to.
#[derive(Clone, Copy, Debug, PartialEq, Eq, Structural)]
pub enum Section {
    /// Before the first header, or under a header other than the two below.
    Other,
    /// Under `@<TRIPOS>ATOM`.
    Atom,
    /// Under `@<TRIPOS>BOND`.
    Bond,
}

/// White space: the characters with the Unicode property `White_Space`.
pub open spec fn spec_is_space(c: char) -> bool {
    let u = c as u32;
    ||| 0x09 <= u <= 0x0d
    ||| u == 0x20
    ||| u == 0x85
    ||| u == 0xa0
    ||| u == 0x1680
    ||| 0x2000 <= u <= 0x200a
    ||| u == 0x2028
    ||| u == 0x2029
    ||| u == 0x202f
    ||| u == 0x205f
    ||| u == 0x3000
}

/// Whether the character is white space.
#[verifier::when_used_as_spec(spec_is_space)]
pub fn is_space(c: char) -> (r: bool)
    ensures
        r == spec_is_space(c),
{
    let u: u32 = c as u32;
    (0x09 <= u && u <= 0x0d) || u == 0x20 || u == 0x85 || u == 0xa0 || u == 0x1680 || (0x2000 <= u
        && u <= 0x200a) || u == 0x2028 || u == 0x2029 || u == 0x202f || u == 0x205f || u == 0x3000
}

/// A decimal digit.
pub open spec fn spec_is_digit(c: char) -> bool {
    '0' <= c && c <= '9'
}

/// What a search through the text stops at.
#[derive(Clone, Copy, Debug, PartialEq, Eq, Structural)]
pub enum Stop {
    /// The line feed that ends a line.
    LineFeed,
    /// White space.
    Space,
    /// Anything but white space.
    Ink,
    /// A full stop.
    Dot,
}

impl Stop {
    /// Whether a search of this kind stops at `c`.
    pub open spec fn spec_at(self, c: char) -> bool {
        match self {
            Stop::LineFeed => c == '\n',
            Stop::Space => spec_is_space(c),
            Stop::Ink => !spec_is_space(c),
            Stop::Dot => c == '.',
        }
    }

    /// Whether a search of this kind stops at `c`.
    #[verifier::when_used_as_spec(spec_at)]
    pub fn at(self, c: char) -> (r: bool)
        ensures
            r == self.spec_at(c),
    {
        match self {
            Stop::LineFeed => c == '\n',
            Stop::Space => is_space(c),
            Stop::Ink => !is_space(c),
            Stop::Dot => c == '.',
        }
    }
}

/// The first position in `from..to` at which the search stops, or `to` if
/// there is none.
pub open spec fn first_stop(text: Seq<char>, from: int, to: int, stop: Stop) -> int
    decreases to - from,
{
    if from >= to || stop.spec_at(text[from]) {
        from
    } else {
        first_stop(text, from + 1, to, stop)
    }
}

/// `first_stop` is what its name says: it lies in `from..=to`, the search
/// stops at no position before it, and it stops there unless it is `to`.
pub proof fn lemma_first_stop(text: Seq<char>, from: int, to: int, stop: Stop)
    requires
        from <= to,
    ensures
        from <= first_stop(text, from, to, stop) <= to,
        forall|i: int| from <= i < first_stop(text, from, to, stop) ==> !stop.spec_at(text[i]),
        first_stop(text, from, to, stop) < to ==> stop.spec_at(
            text[first_stop(text, from, to, stop)],
        ),
    decreases to - from,
{
    if from < to && !stop.spec_at(text[from]) {
        lemma_first_stop(text, from + 1, to, stop);
    }
}

/// Finds the first position in `from..to` at which the search stops.
pub fn find(text: &Vec<char>, from: usize, to: usize, stop: Stop) -> (at: usize)
    requires
        from <= to <= text.len(),
    ensures
        at == first_stop(text@, from as int, to as int, stop),
        from <= at <= to,
{
    let mut at: usize = from;
    while at < to && !stop.at(text[at])
        invariant
            from <= at <= to <= text.len(),
            first_stop(text@, at as int, to as int, stop) == first_stop(
                text@,
                from as int,
                to as int,
                stop,
            ),
        decreases to - at,
    {
        at += 1;
    }
    at
}

/// The words of `from..to`, in order: each begins at the first character
/// that is not white space and ends before the next that is.
pub open spec fn words(text: Seq<char>, from: int, to: int) -> Seq<Span>
    decreases to - from,
{
    let start = first_stop(text, from, to, Stop::Ink);
    if start >= to {
        Seq::empty()
    } else {
        let end = first_stop(text, start + 1, to, Stop::Space);
        proof {
            lemma_first_stop(text, from, to, Stop::Ink);
            lemma_first_stop(text, start + 1, to, Stop::Space);
        }
        seq![Span { start: start as usize, end: end as usize }] + words(text, end, to)
    }
}

/// The characters of a span.
pub open spec fn slice(text: Seq<char>, span: Span) -> Seq<char> {
    text.subrange(span.start as int, span.end as int)
}

/// A span that lies in `from..to` and is not empty.
pub open spec fn within(span: Span, from: int, to: int) -> bool {
    from <= span.start < span.end <= to
}

/// The words of a stretch of text are what one expects: each lies in the
/// stretch, holds no white space, and is bounded on either side by white
/// space or by an end of the stretch; they follow one another; and every
/// character of the stretch that is not white space belongs to one of them.
pub proof fn lemma_words(text: Seq<char>, from: int, to: int)
    requires
        0 <= from <= to <= text.len(),
        to <= usize::MAX,
    ensures
        forall|k: int|
            0 <= k < words(text, from, to).len() ==> {
                let w = #[trigger] words(text, from, to)[k];
                &&& within(w, from, to)
                &&& forall|i: int| w.start <= i < w.end ==> !spec_is_space(text[i])
                &&& (w.start > from ==> spec_is_space(text[w.start - 1]))
                &&& (w.end < to ==> spec_is_space(text[w.end as int]))
            },
        forall|k: int, l: int|
            0 <= k < l < words(text, from, to).len() ==> (#[trigger] words(text, from, to)[k]).end < (
            #[trigger] words(text, from, to)[l]).start,
        forall|i: int|
            from <= i < to && !spec_is_space(text[i]) ==> exists|k: int|
                0 <= k < words(text, from, to).len() && (#[trigger] words(text, from, to)[k]).start
                    <= i < words(text, from, to)[k].end,
    decreases to - from,
{
    let start = first_stop(text, from, to, Stop::Ink);
    lemma_first_stop(text, from, to, Stop::Ink);
    if start < to {
        let end = first_stop(text, start + 1, to, Stop::Space);
        lemma_first_stop(text, start + 1, to, Stop::Space);
        let head = Span { start: start as usize, end: end as usize };
        let rest = words(text, end, to);
        let all = words(text, from, to);
        lemma_words(text, end, to);
        assert(all == seq![head] + rest);
        assert(all[0] == head);
        assert forall|k: int| 1 <= k < all.len() implies all[k] == rest[k - 1] by {}
        assert forall|k: int| 0 <= k < all.len() implies {
            let w = #[trigger] all[k];
            &&& within(w, from, to)
            &&& forall|i: int| w.start <= i < w.end ==> !spec_is_space(text[i])
            &&& (w.start > from ==> spec_is_space(text[w.start - 1]))
            &&& (w.end < to ==> spec_is_space(text[w.end as int]))
        } by {
            if k > 0 {
                let w = rest[k - 1];
                assert(all[k] == w);
                if w.start > from && w.start == end {
                    assert(false);
                }
            }
        }
        assert forall|k: int, l: int| 0 <= k < l < all.len() implies (#[trigger] all[k]).end < (
        #[trigger] all[l]).start by {
            let second = rest[l - 1];
            assert(all[l] == second);
            if k == 0 {
                assert(within(second, end, to));
                assert(second.start > end) by {
                    if second.start == end {
                        assert(!spec_is_space(text[end]));
                    }
                }
            } else {
                assert(all[k] == rest[k - 1]);
            }
        }
        assert forall|i: int| from <= i < to && !spec_is_space(text[i]) implies exists|k: int|
            0 <= k < all.len() && (#[trigger] all[k]).start <= i < all[k].end by {
            if i < end {
                assert(all[0].start <= i < all[0].end);
            } else {
                let k = choose|k: int|
                    0 <= k < rest.len() && (#[trigger] rest[k]).start <= i < rest[k].end;
                assert(all[k + 1] == rest[k]);
            }
        }
    }
}

/// Splits `from..to` into its words.
pub fn split_words(text: &Vec<char>, from: usize, to: usize) -> (found: Vec<Span>)
    requires
        from <= to <= text.len(),
    ensures
        found@ == words(text@, from as int, to as int),
        forall|k: int| 0 <= k < found@.len() ==> within(#[trigger] found@[k], from as int, to as int),
{
    let mut found: Vec<Span> = Vec::new();
    let mut pos: usize = from;
    while pos < to
        invariant
            from <= pos <= to <= text.len(),
            found@ + words(text@, pos as int, to as int) == words(text@, from as int, to as int),
            forall|k: int|
                0 <= k < found@.len() ==> within(#[trigger] found@[k], from as int, to as int),
        decreases to - pos,
    {
        let ghost before = found@;
        let ghost rest = words(text@, pos as int, to as int);
        let start = find(text, pos, to, Stop::Ink);
        if start < to {
            let end = find(text, start + 1, to, Stop::Space);
            let word = Span { start, end };
            found.push(word);
            proof {
                let tail = words(text@, end as int, to as int);
                assert(rest == seq![word] + tail);
                assert(found@ + tail =~= before + (seq![word] + tail));
            }
            pos = end;
        } else {
            proof {
                assert(rest == Seq::<Span>::empty());
                assert(words(text@, to as int, to as int) == Seq::<Span>::empty());
            }
            pos = to;
        }
    }
    proof {
        assert(words(text@, to as int, to as int) == Seq::<Span>::empty());
        assert(found@ + Seq::<Span>::empty() =~= found@);
    }
    found
}

/// Whether `s` begins with `prefix`.
pub open spec fn has_prefix(s: Seq<char>, prefix: Seq<char>) -> bool {
    prefix.len() <= s.len() && forall|i: int| 0 <= i < prefix.len() ==> s[i] == prefix[i]
}

/// `@<TRIPOS>`, with which every section header begins.
pub open spec fn header_prefix() -> Seq<char> {
    seq!['@', '<', 'T', 'R', 'I', 'P', 'O', 'S', '>']
}

/// `@<TRIPOS>ATOM`.
pub open spec fn atom_header() -> Seq<char> {
    seq!['@', '<', 'T', 'R', 'I', 'P', 'O', 'S', '>', 'A', 'T', 'O', 'M']
}

/// `@<TRIPOS>BOND`.
pub open spec fn bond_header() -> Seq<char> {
    seq!['@', '<', 'T', 'R', 'I', 'P', 'O', 'S', '>', 'B', 'O', 'N', 'D']
}

/// Whether the span of the text begins with the pattern.
fn starts_with<const N: usize>(text: &Vec<char>, span: Span, pattern: &[char; N]) -> (r: bool)
    requires
        span.start <= span.end <= text.len(),
    ensures
        r == has_prefix(slice(text@, span), pattern@),
{
    if span.end - span.start < N {
        return false;
    }
    let mut i: usize = 0;
    while i < N
        invariant
            0 <= i <= N,
            span.start + N <= span.end <= text.len(),
            forall|j: int| 0 <= j < i ==> slice(text@, span)[j] == pattern@[j],
        decreases N - i,
    {
        if text[span.start + i] != pattern[i] {
            assert(slice(text@, span)[i as int] != pattern@[i as int]);
            return false;
        }
        i += 1;
    }
    true
}

/// Whether the span of the text is the pattern.
fn is_text<const N: usize>(text: &Vec<char>, span: Span, pattern: &[char; N]) -> (r: bool)
    requires
        span.start <= span.end <= text.len(),
    ensures
        r == (slice(text@, span) == pattern@),
{
    if span.end - span.start != N {
        assert(slice(text@, span).len() != pattern@.len());
        return false;
    }
    let r = starts_with(text, span, pattern);
    proof {
        if r {
            assert(slice(text@, span) =~= pattern@);
        }
    }
    r
}

/// Whether a line with these words is a section header: its first word
/// begins with `@<TRIPOS>`.
pub open spec fn is_header(text: Seq<char>, line: Seq<Span>) -> bool {
    line.len() > 0 && has_prefix(slice(text, line[0]), header_prefix())
}

/// The section that a header opens: the atom or the bond section if the
/// header is the one word that names it, another section otherwise.
pub open spec fn section_of(text: Seq<char>, line: Seq<Span>) -> Section {
    if line.len() == 1 && slice(text, line[0]) == atom_header() {
        Section::Atom
    } else if line.len() == 1 && slice(text, line[0]) == bond_header() {
        Section::Bond
    } else {
        Section::Other
    }
}

/// Whether the line is a section header.
fn is_header_line(text: &Vec<char>, line: &Vec<Span>) -> (r: bool)
    requires
        forall|k: int| 0 <= k < line@.len() ==> within(#[trigger] line@[k], 0, text.len() as int),
    ensures
        r == is_header(text@, line@),
{
    let prefix: [char; 9] = ['@', '<', 'T', 'R', 'I', 'P', 'O', 'S', '>'];
    proof {
        assert(prefix@ =~= header_prefix());
    }
    line.len() > 0 && starts_with(text, line[0], &prefix)
}

/// The section that the header opens.
fn header_section(text: &Vec<char>, line: &Vec<Span>) -> (section: Section)
    requires
        forall|k: int| 0 <= k < line@.len() ==> within(#[trigger] line@[k], 0, text.len() as int),
    ensures
        section == section_of(text@, line@),
{
    let atom: [char; 13] = ['@', '<', 'T', 'R', 'I', 'P', 'O', 'S', '>', 'A', 'T', 'O', 'M'];
    let bond: [char; 13] = ['@', '<', 'T', 'R', 'I', 'P', 'O', 'S', '>', 'B', 'O', 'N', 'D'];
    proof {
        assert(atom@ =~= atom_header());
        assert(bond@ =~= bond_header());
    }
    if line.len() != 1 {
        Section::Other
    } else if is_text(text, line[0], &atom) {
        Section::Atom
    } else if is_text(text, line[0], &bond) {
        Section::Bond
    } else {
        Section::Other
    }
}

/// The number that a string of decimal digits denotes.
pub open spec fn decimal_value(digits: Seq<char>) -> nat
    decreases digits.len(),
{
    if digits.len() == 0 {
        0
    } else {
        decimal_value(digits.drop_last()) * 10 + (if spec_is_digit(digits.last()) {
            (digits.last() as u32 - 48) as nat
        } else {
            0
        })
    }
}

/// Every character is a decimal digit.
pub open spec fn all_digits(s: Seq<char>) -> bool {
    forall|i: int| 0 <= i < s.len() ==> spec_is_digit(#[trigger] s[i])
}

/// The unsigned integer that a string of digits denotes, if it denotes one:
/// one or more decimal digits whose value fits the machine word.
pub open spec fn unsigned_of(digits: Seq<char>) -> Option<usize> {
    if digits.len() > 0 && all_digits(digits) && decimal_value(digits) <= usize::MAX {
        Some(decimal_value(digits) as usize)
    } else {
        None
    }
}

/// The unsigned integer that a word denotes, if it denotes one: an optional
/// `+`, then one or more decimal digits whose value fits the machine word.
pub open spec fn number_of(word: Seq<char>) -> Option<usize> {
    if word.len() > 0 && word[0] == '+' {
        unsigned_of(word.skip(1))
    } else {
        unsigned_of(word)
    }
}

/// A number does not shrink when digits are appended to it.
proof fn lemma_decimal_value_grows(digits: Seq<char>, n: int)
    requires
        0 <= n <= digits.len(),
    ensures
        decimal_value(digits.take(n)) <= decimal_value(digits),
    decreases digits.len() - n,
{
    if n < digits.len() {
        lemma_decimal_value_grows(digits, n + 1);
        assert(digits.take(n + 1).drop_last() =~= digits.take(n));
    } else {
        assert(digits.take(n) =~= digits);
    }
}

/// Reads the unsigned integer that the span of the text denotes.
pub fn parse_number(text: &Vec<char>, span: Span) -> (n: Option<usize>)
    requires
        span.start <= span.end <= text.len(),
    ensures
        n == number_of(slice(text@, span)),
{
    let ghost word = slice(text@, span);
    let mut first: usize = span.start;
    if first < span.end && text[first] == '+' {
        first += 1;
    }
    let ghost digits = text@.subrange(first as int, span.end as int);
    proof {
        if word.len() > 0 && word[0] == '+' {
            assert(word.skip(1) =~= digits);
        } else {
            assert(word =~= digits);
        }
    }
    if first >= span.end {
        return None;
    }
    let mut value: usize = 0;
    let mut i: usize = first;
    while i < span.end
        invariant
            first <= i <= span.end <= text.len(),
            digits == text@.subrange(first as int, span.end as int),
            number_of(slice(text@, span)) == unsigned_of(digits),
            all_digits(digits.take(i - first)),
            value == decimal_value(digits.take(i - first)),
        decreases span.end - i,
    {
        let c = text[i];
        let ghost seen = digits.take(i - first);
        let ghost next = digits.take(i - first + 1);
        proof {
            assert(next.drop_last() =~= seen);
            assert(next.last() == c);
            assert(digits[i - first] == c);
            lemma_decimal_value_grows(digits, i - first + 1);
        }
        if !(c >= '0' && c <= '9') {
            assert(!spec_is_digit(digits[i - first]));
            return None;
        }
        let d: usize = (c as u32 - '0' as u32) as usize;
        assert(decimal_value(next) == value * 10 + d);
        if value > (usize::MAX - d) / 10 {
            assert(value * 10 + d > usize::MAX);
            return None;
        }
        value = value * 10 + d;
        proof {
            assert forall|j: int| 0 <= j < next.len() implies spec_is_digit(#[trigger] next[j]) by {
                if j < seen.len() {
                    assert(next[j] == seen[j]);
                }
            }
        }
        i += 1;
    }
    proof {
        assert(digits.take(span.end - first) =~= digits);
    }
    Some(value)
}

/// The order of a bond, from the word that gives it: 2 for `2`, 3 for `3`,
/// 1 for every other word.
pub open spec fn order_of(word: Seq<char>) -> u8 {
    if word == seq!['2'] {
        2
    } else if word == seq!['3'] {
        3
    } else {
        1
    }
}

/// Reads the order of a bond.
pub fn bond_order(text: &Vec<char>, span: Span) -> (order: u8)
    requires
        span.start <= span.end <= text.len(),
    ensures
        order == order_of(slice(text@, span)),
{
    let two: [char; 1] = ['2'];
    let three: [char; 1] = ['3'];
    proof {
        assert(two@ =~= seq!['2']);
        assert(three@ =~= seq!['3']);
    }
    if is_text(text, span, &two) {
        2
    } else if is_text(text, span, &three) {
        3
    } else {
        1
    }
}

/// The record that a line gives in a section, if it gives one.
pub open spec fn record_of(text: Seq<char>, section: Section, line: Seq<Span>) -> Option<
    Mol2Record,
> {
    match section {
        Section::Atom => if line.len() >= 6 {
            Some(
                Mol2Record::Atom {
                    x: line[2],
                    y: line[3],
                    z: line[4],
                    element: Span {
                        start: line[5].start,
                        end: first_stop(
                            text,
                            line[5].start as int,
                            line[5].end as int,
                            Stop::Dot,
                        ) as usize,
                    },
                },
            )
        } else {
            None
        },
        Section::Bond => if line.len() >= 4 && number_of(slice(text, line[1])) is Some && number_of(
            slice(text, line[2]),
        ) is Some {
            Some(
                Mol2Record::Bond {
                    a_id: number_of(slice(text, line[1]))->0,
                    b_id: number_of(slice(text, line[2]))->0,
                    order: order_of(slice(text, line[3])),
                },
            )
        } else {
            None
        },
        Section::Other => None,
    }
}

/// Reads a line that is not a header.
fn read_record(text: &Vec<char>, section: Section, line: &Vec<Span>) -> (record: Option<Mol2Record>)
    requires
        forall|k: int| 0 <= k < line@.len() ==> within(#[trigger] line@[k], 0, text.len() as int),
    ensures
        record == record_of(text@, section, line@),
        record matches Some(r) ==> spans_within(r, text.len() as int),
{
    match section {
        Section::Atom => {
            if line.len() >= 6 {
                let kind = line[5];
                let dot = find(text, kind.start, kind.end, Stop::Dot);
                Some(
                    Mol2Record::Atom {
                        x: line[2],
                        y: line[3],
                        z: line[4],
                        element: Span { start: kind.start, end: dot },
                    },
                )
            } else {
                None
            }
        },
        Section::Bond => {
            if line.len() >= 4 {
                match parse_number(text, line[1]) {
                    Some(a_id) => match parse_number(text, line[2]) {
                        Some(b_id) => Some(
                            Mol2Record::Bond { a_id, b_id, order: bond_order(text, line[3]) },
                        ),
                        None => None,
                    },
                    None => None,
                }
            } else {
                None
            }
        },
        Section::Other => None,
    }
}

/// Every span of the record lies in a text of the given length.
pub open spec fn spans_within(record: Mol2Record, len: int) -> bool {
    match record {
        Mol2Record::Atom { x, y, z, element } => {
            &&& x.start <= x.end <= len
            &&& y.start <= y.end <= len
            &&& z.start <= z.end <= len
            &&& element.start <= element.end <= len
        },
        Mol2Record::Bond { .. } => true,
    }
}

/// The records of the text from position `from` on, where `section` is the
/// section that the line at `from` belongs to.
///
/// A line runs up to the next line feed or the end of the text. A line
/// without words is passed over. A header changes the section and gives no
/// record. Any other line gives the record, if any, that it holds in the
/// current section.
pub open spec fn records_from(text: Seq<char>, from: int, section: Section) -> Seq<Mol2Record>
    decreases text.len() - from,
{
    if from >= text.len() {
        Seq::empty()
    } else {
        let end = first_stop(text, from, text.len() as int, Stop::LineFeed);
        let line = words(text, from, end);
        let here = if is_header(text, line) {
            Seq::empty()
        } else {
            match record_of(text, section, line) {
                Some(record) => seq![record],
                None => Seq::empty(),
            }
        };
        if end >= text.len() {
            here
        } else {
            proof {
                lemma_first_stop(text, from, text.len() as int, Stop::LineFeed);
            }
            here + records_from(
                text,
                end + 1,
                if is_header(text, line) {
                    section_of(text, line)
                } else {
                    section
                },
            )
        }
    }
}

/// The records of a whole text.
pub open spec fn records_of(text: Seq<char>) -> Seq<Mol2Record> {
    records_from(text, 0, Section::Other)
}

/// Finds the records of a text, in the order of their lines. Every span of a
/// record lies within the text.
pub fn scan(text: &Vec<char>) -> (records: Vec<Mol2Record>)
    ensures
        records@ == records_of(text@),
        forall|k: int|
            0 <= k < records@.len() ==> spans_within(#[trigger] records@[k], text.len() as int),
{
    let mut records: Vec<Mol2Record> = Vec::new();
    let mut section = Section::Other;
    let mut pos: usize = 0;
    let len = text.len();
    while pos < len
        invariant
            len == text.len(),
            0 <= pos <= len,
            records@ + records_from(text@, pos as int, section) == records_of(text@),
            forall|k: int| 0 <= k < records@.len() ==> spans_within(#[trigger] records@[k], len as int),
        decreases len - pos,
    {
        let ghost before = records@;
        let ghost old_section = section;
        let end = find(text, pos, len, Stop::LineFeed);
        let line = split_words(text, pos, end);
        if is_header_line(text, &line) {
            section = header_section(text, &line);
        } else {
            match read_record(text, section, &line) {
                Some(record) => {
                    records.push(record);
                },
                None => {},
            }
        }
        let ghost here = records@.skip(before.len() as int);
        proof {
            assert(records@ =~= before + here);
            if end < len {
                let tail = records_from(text@, end + 1, section);
                assert(records_from(text@, pos as int, old_section) == here + tail);
                assert(records@ + tail =~= before + (here + tail));
            } else {
                assert(records_from(text@, pos as int, old_section) == here);
                assert(records_from(text@, len as int, section) == Seq::<Mol2Record>::empty());
                assert(records@ + Seq::<Mol2Record>::empty() =~= before + here);
            }
        }
        pos =
        if end < len {
            end + 1
        } else {
            len
        };
    }
    proof {
        assert(records_from(text@, len as int, section) == Seq::<Mol2Record>::empty());
        assert(records@ + Seq::<Mol2Record>::empty() =~= records@);
    }
    records
}

} // verus!

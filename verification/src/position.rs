//! Positions in a document: a line and a character column, both counted
//! from zero in characters, and the index that maps character offsets to them.

use vstd::prelude::*;

verus! {

/// A position: zero-based line and character column.
#[derive(Clone, Copy, Debug, PartialEq, Eq, Structural)]
pub struct Position {
    pub line: u32,
    pub character: u32,
}

/// A half-open range between two positions.
#[derive(Clone, Copy, Debug, PartialEq, Eq, Structural)]
pub struct Range {
    pub start: Position,
    pub end: Position,
}

impl Position {
    pub fn new(line: u32, character: u32) -> (r: Position)
        ensures
            r.line == line,
            r.character == character,
    {
        Position { line, character }
    }

    /// The start of the document.
    pub fn zero() -> (r: Position)
        ensures
            r.line == 0,
            r.character == 0,
    {
        Position { line: 0, character: 0 }
    }
}

impl Range {
    /// The empty range at the start of the document.
    pub open spec fn zero_spec() -> Range {
        Range { start: Position { line: 0, character: 0 }, end: Position { line: 0, character: 0 } }
    }

    /// The empty range at the start of the document.
    pub fn zero() -> (r: Range)
        ensures
            r == Range::zero_spec(),
    {
        Range { start: Position::zero(), end: Position::zero() }
    }
}

/// The (line, column) of character offset `o` in `text`: a newline moves to
/// the next line, every other character one column on.
pub open spec fn position_of(text: Seq<char>, o: int) -> (int, int)
    decreases o,
{
    if o <= 0 {
        (0, 0)
    } else {
        let p = position_of(text, o - 1);
        if text[o - 1] == '\n' {
            (p.0 + 1, 0)
        } else {
            (p.0, p.1 + 1)
        }
    }
}

/// The offset at which line `line` starts: 0 for the first line, else the offset
/// just after the `line`-th newline; `None` when the text has fewer lines.
pub open spec fn line_start(text: Seq<char>, line: int) -> Option<int> {
    if line == 0 {
        Some(0)
    } else if exists|o: int| 0 < o <= text.len() && text[o - 1] == '\n' && position_of(text, o).0 == line {
        Some(choose|o: int| 0 < o <= text.len() && text[o - 1] == '\n' && position_of(text, o).0 == line)
    } else {
        None
    }
}

pub proof fn lemma_position_bounded(text: Seq<char>, o: int)
    requires
        0 <= o,
    ensures
        0 <= position_of(text, o).0 <= o,
        0 <= position_of(text, o).1 <= o,
    decreases o,
{
    if o > 0 {
        lemma_position_bounded(text, o - 1);
    }
}

pub proof fn lemma_position_line_monotone(text: Seq<char>, a: int, b: int)
    requires
        0 <= a <= b <= text.len(),
    ensures
        position_of(text, a).0 <= position_of(text, b).0,
    decreases b - a,
{
    if a < b {
        lemma_position_line_monotone(text, a, b - 1);
    }
}

/// A newline before `b` puts `b` on a later line than any earlier offset.
pub proof fn lemma_newline_increases(text: Seq<char>, a: int, b: int)
    requires
        0 <= a < b <= text.len(),
        text[b - 1] == '\n',
    ensures
        position_of(text, b).0 > position_of(text, a).0,
{
    lemma_position_line_monotone(text, a, b - 1);
}

/// Inside a line, the column counts the characters since the line's start.
pub proof fn lemma_within_line(text: Seq<char>, s: int, o: int)
    requires
        0 <= s <= o <= text.len(),
        s == 0 || text[s - 1] == '\n',
        forall|q: int| s <= q < o ==> text[q] != '\n',
    ensures
        position_of(text, o) == (position_of(text, s).0, o - s),
    decreases o - s,
{
    if o > s {
        lemma_within_line(text, s, o - 1);
    }
}

/// Column `c` of offset `o` counts the characters since the start of its
/// line, `o - c`, which follows a newline (or is the start of the text).
pub proof fn lemma_line_of(text: Seq<char>, o: int)
    requires
        0 <= o <= text.len(),
    ensures
        0 <= position_of(text, o).1 <= o,
        o - position_of(text, o).1 == 0 || text[o - position_of(text, o).1 - 1] == '\n',
        forall|q: int| o - position_of(text, o).1 <= q < o ==> text[q] != '\n',
        position_of(text, o - position_of(text, o).1).0 == position_of(text, o).0,
    decreases o,
{
    if o > 0 {
        lemma_line_of(text, o - 1);
        if text[o - 1] != '\n' {
            let s = o - 1 - position_of(text, o - 1).1;
            assert(o - position_of(text, o).1 == s);
        }
    }
}


/// ASCII letters and digits, `_` and `.`: the characters of a dotted name.
pub open spec fn word_char(c: char) -> bool {
    ('a' <= c && c <= 'z') || ('A' <= c && c <= 'Z') || ('0' <= c && c <= '9') || c == '_' || c
        == '.'
}

/// Whether the byte belongs to a dotted name.
pub fn is_word_byte(byte: u8) -> (r: bool)
    ensures
        r == word_char(byte as char),
{
    (97u8 <= byte && byte <= 122u8) || (65u8 <= byte && byte <= 90u8) || (48u8 <= byte && byte
        <= 57u8) || byte == 95u8 || byte == 46u8
}

/// Whether the character belongs to a dotted name.
pub fn is_word_char(c: char) -> (r: bool)
    ensures
        r == word_char(c),
{
    ('a' <= c && c <= 'z') || ('A' <= c && c <= 'Z') || ('0' <= c && c <= '9') || c == '_' || c
        == '.'
}

/// The start of the run of word characters that ends at `o`.
pub open spec fn word_start(text: Seq<char>, o: int) -> int
    decreases o,
{
    if o > 0 && o <= text.len() && word_char(text[o - 1]) {
        word_start(text, o - 1)
    } else {
        o
    }
}

/// The end of the run of word characters that starts at `o`.
pub open spec fn word_end(text: Seq<char>, o: int) -> int
    decreases text.len() - o,
{
    if 0 <= o < text.len() && word_char(text[o]) {
        word_end(text, o + 1)
    } else {
        o
    }
}

/// The width of a range on one line, saturating at zero.
pub open spec fn width(range: Range) -> int {
    if range.end.character >= range.start.character {
        range.end.character - range.start.character
    } else {
        0
    }
}

/// What `normalize_diagnostic_range` gives for `range` when the dotted name
/// around its start spans `expanded`.
pub open spec fn normalized_range(range: Range, expanded: Range) -> Range {
    if range.start.line != range.end.line || width(range) >= 3 {
        range
    } else if width(expanded) > width(range) {
        expanded
    } else {
        range
    }
}

/// Positions of every character offset of a text, and the start of every line.
pub struct LineIndex {
    text: Vec<char>,
    positions: Vec<Position>,
    line_starts: Vec<usize>,
}

impl LineIndex {
    pub closed spec fn text(self) -> Seq<char> {
        self.text@
    }

    pub closed spec fn wf(self) -> bool {
        &&& self.positions@.len() == self.text@.len() + 1
        &&& forall|o: int|
            0 <= o <= self.text@.len() ==> (#[trigger] self.positions@[o]).line == position_of(
                self.text@,
                o,
            ).0 && self.positions@[o].character == position_of(self.text@, o).1
        &&& self.line_starts@.len() >= 1
        &&& self.line_starts@[0] == 0
        &&& forall|k: int|
            0 < k < self.line_starts@.len() ==> {
                let o = #[trigger] self.line_starts@[k] as int;
                &&& 0 < o <= self.text@.len()
                &&& self.text@[o - 1] == '\n'
                &&& position_of(self.text@, o).0 == k
            }
        &&& forall|o: int|
            0 < o <= self.text@.len() && self.text@[o - 1] == '\n' ==> position_of(self.text@, o).0
                < self.line_starts@.len()
        &&& self.text@.len() < u32::MAX
    }

    /// The index of `text`.
    pub fn new(text: &Vec<char>) -> (r: LineIndex)
        requires
            text@.len() < u32::MAX,
        ensures
            r.wf(),
            r.text() == text@,
    {
        let mut positions: Vec<Position> = Vec::new();
        let mut line_starts: Vec<usize> = Vec::new();
        line_starts.push(0);
        positions.push(Position::zero());
        let mut line: u32 = 0;
        let mut col: u32 = 0;
        let mut o: usize = 0;
        while o < text.len()
            invariant
                o <= text@.len() < u32::MAX,
                positions@.len() == o + 1,
                forall|p: int|
                    0 <= p <= o ==> (#[trigger] positions@[p]).line == position_of(text@, p).0
                        && positions@[p].character == position_of(text@, p).1,
                line == position_of(text@, o as int).0,
                col == position_of(text@, o as int).1,
                line <= o,
                col <= o,
                line_starts@.len() == line + 1,
                line_starts@[0] == 0,
                forall|k: int|
                    0 < k < line_starts@.len() ==> {
                        let s = #[trigger] line_starts@[k] as int;
                        &&& 0 < s <= o
                        &&& text@[s - 1] == '\n'
                        &&& position_of(text@, s).0 == k
                    },
            decreases text@.len() - o,
        {
            if text[o] == '\n' {
                line = line + 1;
                col = 0;
                line_starts.push(o + 1);
            } else {
                col = col + 1;
            }
            o = o + 1;
            positions.push(Position { line, character: col });
        }
        proof {
            assert forall|p: int|
                0 < p <= text@.len() && text@[p - 1] == '\n' implies position_of(text@, p).0
                < line_starts@.len() by {
                lemma_position_line_monotone(text@, p, text@.len() as int);
            }
        }
        LineIndex { text: text.clone(), positions, line_starts }
    }

    /// The position of character offset `offset`; offsets past the end map to the end.
    pub fn offset_to_position(&self, offset: usize) -> (r: Position)
        requires
            self.wf(),
        ensures
            ({
                let o = if offset <= self.text().len() { offset as int } else { self.text().len() as int };
                r.line == position_of(self.text(), o).0 && r.character == position_of(self.text(), o).1
            }),
    {
        let o = if offset <= self.text.len() { offset } else { self.text.len() };
        self.positions[o]
    }

    /// The number of lines (one more than the number of newlines).
    pub fn line_count(&self) -> (r: usize)
        requires
            self.wf(),
        ensures
            r == self.line_starts_view().len(),
    {
        self.line_starts.len()
    }

    pub closed spec fn line_starts_view(self) -> Seq<usize> {
        self.line_starts@
    }

    /// The range of the dotted name at or just before `range.start`, or
    /// `range` itself when no word character is there.
    pub fn expand_range_to_word(&self, range: Range) -> (r: Range)
        requires
            self.wf(),
        ensures
            r == self.expand_view(range),
    {
        let mut offset = self.position_to_offset(range.start);
        let n = self.text.len();
        if offset >= n {
            return range;
        }
        if !is_word_char(self.text[offset]) {
            if offset == 0 || !is_word_char(self.text[offset - 1]) {
                return range;
            }
            offset = offset - 1;
        }
        let mut left = offset;
        while left > 0 && self.text[left - 1] != '\n' && is_word_char(self.text[left - 1])
            invariant
                self.wf(),
                left <= offset < n == self.text@.len(),
                word_start(self.text@, offset as int) == word_start(self.text@, left as int),
            decreases left,
        {
            left = left - 1;
        }
        let mut right = offset;
        while right < n && self.text[right] != '\n' && is_word_char(self.text[right])
            invariant
                self.wf(),
                offset <= right <= n == self.text@.len(),
                word_end(self.text@, offset as int) == word_end(self.text@, right as int),
            decreases n - right,
        {
            right = right + 1;
        }
        let start = self.offset_to_position(left);
        let end = self.offset_to_position(right);
        proof {
            lemma_position_bounded(self.text@, left as int);
            lemma_position_bounded(self.text@, right as int);
        }
        Range { start, end }
    }

    /// The offset `position_to_offset` computes for `pos`.
    pub closed spec fn offset_of_view(self, pos: Position) -> int {
        if (pos.line as int) < self.line_starts@.len() {
            let s = self.line_starts@[pos.line as int] as int;
            self.line_offset(s, pos.character as int)
        } else {
            self.text@.len() as int
        }
    }

    /// From `s`, `c` characters on, stopping at a newline or the end of the text.
    pub closed spec fn line_offset(self, s: int, c: int) -> int
        decreases c,
    {
        if c <= 0 || s >= self.text@.len() || self.text@[s] == '\n' {
            s
        } else {
            self.line_offset(s + 1, c - 1)
        }
    }

    /// A range on one line shorter than three characters is widened to the
    /// dotted name around its start when that name is longer.
    pub fn normalize_diagnostic_range(&self, range: Range) -> (r: Range)
        requires
            self.wf(),
        ensures
            r == normalized_range(range, self.expand_view(range)),
    {
        if range.start.line != range.end.line {
            return range;
        }
        let len = if range.end.character >= range.start.character {
            range.end.character - range.start.character
        } else {
            0
        };
        if len >= 3 {
            return range;
        }
        let expanded = self.expand_range_to_word(range);
        let expanded_len = if expanded.end.character >= expanded.start.character {
            expanded.end.character - expanded.start.character
        } else {
            0
        };
        if expanded_len > len {
            expanded
        } else {
            range
        }
    }

    /// The range of the dotted name at or just before `range.start` (see
    /// `expand_range_to_word`).
    pub open spec fn expand_view(self, range: Range) -> Range {
        let text = self.text();
        let o = self.offset_of_view(range.start);
        if o >= text.len() {
            range
        } else if !word_char(text[o]) && (o == 0 || !word_char(text[o - 1])) {
            range
        } else {
            let at = if word_char(text[o]) { o } else { o - 1 };
            let left = word_start(text, at);
            let right = word_end(text, at);
            Range {
                start: Position {
                    line: position_of(text, left).0 as u32,
                    character: position_of(text, left).1 as u32,
                },
                end: Position {
                    line: position_of(text, right).0 as u32,
                    character: position_of(text, right).1 as u32,
                },
            }
        }
    }

    /// Walking `c` characters of one line from `s` reaches `s + c`.
    proof fn lemma_line_offset_walk(self, s: int, c: int)
        requires
            0 <= s,
            0 <= c,
            s + c <= self.text@.len(),
            forall|q: int| s <= q < s + c ==> self.text@[q] != '\n',
        ensures
            self.line_offset(s, c) == s + c,
        decreases c,
    {
        if c > 0 {
            self.lemma_line_offset_walk(s + 1, c - 1);
        }
    }

    /// Reading back the position of an offset gives the offset again.
    pub proof fn lemma_offset_roundtrip(self, o: int)
        requires
            self.wf(),
            0 <= o <= self.text().len(),
        ensures
            self.offset_of_view(
                Position {
                    line: position_of(self.text(), o).0 as u32,
                    character: position_of(self.text(), o).1 as u32,
                },
            ) == o,
    {
        let t = self.text@;
        let (l, c) = position_of(t, o);
        lemma_line_of(t, o);
        lemma_position_bounded(t, o);
        let s = o - c;
        if s > 0 {
            assert(position_of(t, s).0 < self.line_starts@.len());
        }
        if l == 0 && s > 0 {
            lemma_newline_increases(t, 0, s);
        }
        if l > 0 {
            let o2 = self.line_starts@[l] as int;
            assert(0 < o2 <= t.len() && t[o2 - 1] == '\n' && position_of(t, o2).0 == l);
            if o2 < s {
                lemma_newline_increases(t, o2, s);
            } else if s < o2 {
                if s > 0 {
                    lemma_newline_increases(t, s, o2);
                } else {
                    lemma_newline_increases(t, 0, o2);
                }
            }
            assert(o2 == s);
        }
        self.lemma_line_offset_walk(s, c);
    }

    /// The character offset of `pos`: the start of its line plus its column,
    /// stopped at the end of the line; past the last line, the end of the text.
    pub fn position_to_offset(&self, pos: Position) -> (r: usize)
        requires
            self.wf(),
        ensures
            r <= self.text().len(),
            (pos.line as int) < self.line_starts_view().len() ==> {
                let s = self.line_starts_view()[pos.line as int] as int;
                &&& s <= r
                &&& forall|q: int| s <= q < r ==> self.text()[q] != '\n'
                &&& r == s + pos.character || r == self.text().len() || self.text()[r as int] == '\n'
                &&& position_of(self.text(), r as int) == (pos.line as int, r - s)
            },
            (pos.line as int) >= self.line_starts_view().len() ==> r == self.text().len(),
            r == self.offset_of_view(pos),
    {
        let line = pos.line as usize;
        if line >= self.line_starts.len() {
            return self.text.len();
        }
        let s = self.line_starts[line];
        let mut r = s;
        let mut c: u32 = 0;
        while c < pos.character && r < self.text.len() && self.text[r] != '\n'
            invariant
                self.line_offset(s as int, pos.character as int) == self.line_offset(
                    r as int,
                    pos.character - c,
                ),
                self.wf(),
                line < self.line_starts@.len(),
                s == self.line_starts@[line as int],
                s <= r <= self.text@.len(),
                r == s + c,
                c <= pos.character,
                forall|q: int| s <= q < r ==> self.text@[q] != '\n',
            decreases pos.character - c,
        {
            r = r + 1;
            c = c + 1;
        }
        proof {
            if line > 0 {
                assert(self.line_starts@[line as int] == s);
            }
            lemma_within_line(self.text@, s as int, r as int);
        }
        r
    }
}

} // verus!

//! Laying out diagnostic text for the on-screen overlay: the first line of a
//! message, wrapped word by word to a line length counted in UTF-8 bytes.

use vstd::prelude::*;
use vstd::std_specs::iter::IteratorSpec;

verus! {

broadcast use vstd::string::group_string_axioms;

/// The characters with the Unicode property `White_Space`.
pub open spec fn is_whitespace(c: char) -> bool {
    let v = c as u32;
    ||| 0x09 <= v <= 0x0D
    ||| v == 0x20
    ||| v == 0x85
    ||| v == 0xA0
    ||| v == 0x1680
    ||| 0x2000 <= v <= 0x200A
    ||| v == 0x2028
    ||| v == 0x2029
    ||| v == 0x202F
    ||| v == 0x205F
    ||| v == 0x3000
}

/// The number of bytes that the text takes in UTF-8.
pub open spec fn byte_len(s: Seq<char>) -> nat {
    vstd::utf8::encode_utf8(s).len()
}

/// The index just past the run of non-whitespace characters that starts at
/// `from`; `from` itself where no such run starts there.
pub open spec fn word_end(s: Seq<char>, from: int) -> int
    decreases s.len() - from,
{
    if 0 <= from < s.len() && !is_whitespace(s[from]) {
        word_end(s, from + 1)
    } else {
        from
    }
}

/// The words of `s` from index `from` on: its maximal runs of characters
/// that are not whitespace, in order.
pub open spec fn words_from(s: Seq<char>, from: int) -> Seq<Seq<char>>
    decreases s.len() - from,
{
    if from < 0 || from >= s.len() {
        Seq::empty()
    } else if is_whitespace(s[from]) {
        words_from(s, from + 1)
    } else {
        proof {
            lemma_word_end_bounds(s, from);
        }
        let end = word_end(s, from);
        seq![s.subrange(from, end)] + words_from(s, end)
    }
}

/// What is left of a line of `line_length` bytes once `cost` are taken.
pub open spec fn remaining(line_length: nat, cost: nat) -> nat {
    if cost >= line_length {
        0
    } else {
        (line_length - cost) as nat
    }
}

/// The words laid out greedily. Each word is followed by one space and
/// costs its bytes plus one. A word that costs more than is left of the
/// current line is preceded by a line break and starts a fresh line.
pub open spec fn laid_out(words: Seq<Seq<char>>, leftover: nat, line_length: nat) -> Seq<char>
    decreases words.len(),
{
    if words.len() == 0 {
        Seq::empty()
    } else {
        let word = words[0];
        let cost = byte_len(word) + 1;
        if cost > leftover {
            seq!['\n'] + word + seq![' '] + laid_out(
                words.drop_first(),
                remaining(line_length, cost),
                line_length,
            )
        } else {
            word + seq![' '] + laid_out(
                words.drop_first(),
                (leftover - cost) as nat,
                line_length,
            )
        }
    }
}

/// The text with its words wrapped to lines of `line_length` bytes.
pub open spec fn wrapped(text: Seq<char>, line_length: nat) -> Seq<char> {
    laid_out(words_from(text, 0), line_length, line_length)
}

/// The index of the first line feed at or after `from`; the length of the
/// text where there is none.
pub open spec fn line_end(text: Seq<char>, from: int) -> int
    decreases text.len() - from,
{
    if 0 <= from < text.len() && text[from] != '\n' {
        line_end(text, from + 1)
    } else {
        from
    }
}

/// The first line of the text, without its line ending: a line feed, or a
/// carriage return directly followed by one. A text without a line feed is
/// its own first line.
pub open spec fn first_line_of(text: Seq<char>) -> Seq<char> {
    let end = line_end(text, 0);
    if 0 < end < text.len() && text[end - 1] == '\r' {
        text.subrange(0, end - 1)
    } else {
        text.subrange(0, end)
    }
}

/// The overlay shows lines of at most this many bytes, as far as the words
/// allow.
pub const OVERLAY_LINE_LENGTH: usize = 40;

/// The run that starts at `from` ends within the text, holds no
/// whitespace, and is followed by whitespace or by the end of the text.
pub proof fn lemma_word_end_bounds(s: Seq<char>, from: int)
    requires
        0 <= from <= s.len(),
    ensures
        from <= word_end(s, from) <= s.len(),
        from < s.len() && !is_whitespace(s[from]) ==> from < word_end(s, from),
        word_end(s, from) < s.len() ==> is_whitespace(s[word_end(s, from)]),
        forall|k: int| from <= k < word_end(s, from) ==> !is_whitespace(#[trigger] s[k]),
    decreases s.len() - from,
{
    if from < s.len() && !is_whitespace(s[from]) {
        lemma_word_end_bounds(s, from + 1);
    }
}

/// One more character adds the bytes of its own encoding.
pub proof fn lemma_byte_len_push(s: Seq<char>, c: char)
    ensures
        byte_len(s.push(c)) == byte_len(s) + vstd::utf8::encode_scalar(c as u32).len(),
    decreases s.len(),
{
    if s.len() == 0 {
        assert(s.push(c).drop_first() =~= s);
        assert(vstd::utf8::encode_utf8(s) =~= Seq::<u8>::empty());
    } else {
        assert(s.push(c).drop_first() =~= s.drop_first().push(c));
        lemma_byte_len_push(s.drop_first(), c);
    }
}

/// Whether the character is whitespace.
pub fn char_is_whitespace(c: char) -> (white: bool)
    ensures
        white == is_whitespace(c),
{
    let v: u32 = c as u32;
    (0x09 <= v && v <= 0x0D) || v == 0x20 || v == 0x85 || v == 0xA0 || v == 0x1680 || (0x2000 <= v
        && v <= 0x200A) || v == 0x2028 || v == 0x2029 || v == 0x202F || v == 0x205F || v == 0x3000
}

/// The number of bytes of the character's UTF-8 encoding.
pub fn char_width(c: char) -> (width: u8)
    ensures
        width == vstd::utf8::encode_scalar(c as u32).len(),
        1 <= width <= 4,
{
    let v: u32 = c as u32;
    if v < 0x80 {
        1
    } else if v < 0x800 {
        2
    } else if v < 0x10000 {
        3
    } else {
        4
    }
}

/// `String::push`: appends one character to the end of the string.
#[verifier::external_body]
fn push_char(text: &mut String, c: char)
    ensures
        final(text)@ == old(text)@.push(c),
{
    text.push(c)
}

/// The characters of a string, in order.
fn chars_of(text: &str) -> (chars: Vec<char>)
    ensures
        chars@ == text@,
{
    let mut chars: Vec<char> = Vec::new();
    let mut rest = text.chars();
    loop
        invariant
            rest.obeys_prophetic_iter_laws(),
            rest.decrease() is Some,
            chars@ + rest.remaining() == text@,
        ensures
            chars@ == text@,
        decreases rest.decrease()->0,
    {
        let ghost before = rest.remaining();
        match rest.next() {
            Some(c) => {
                chars.push(c);
                assert(chars@ + rest.remaining() =~= text@) by {
                    assert(before =~= seq![c] + before.drop_first());
                }
            },
            None => {
                assert(chars@ =~= chars@ + before);
                break ;
            },
        }
    }
    chars
}

/// The string that holds the given characters, in order.
fn string_of(chars: &Vec<char>) -> (text: String)
    ensures
        text@ == chars@,
{
    let mut text = String::new();
    let mut i: usize = 0;
    while i < chars.len()
        invariant
            i <= chars.len(),
            text@ == chars@.take(i as int),
        decreases chars.len() - i,
    {
        push_char(&mut text, chars[i]);
        i += 1;
    }
    text
}

/// Finds the end of the word that starts at `start`, and what the word
/// costs on a line: its bytes and one more for the space behind it.
fn measure_word(text: &Vec<char>, start: usize) -> (measure: (usize, u128))
    requires
        start <= text.len(),
    ensures
        measure.0 == word_end(text@, start as int),
        start <= measure.0 <= text.len(),
        measure.1 == byte_len(text@.subrange(start as int, measure.0 as int)) + 1,
{
    let ghost s = text@;
    let mut end: usize = start;
    let mut cost: u128 = 1;
    assert(s.subrange(start as int, start as int) =~= Seq::<char>::empty());
    while end < text.len() && !char_is_whitespace(text[end])
        invariant
            s == text@,
            start <= end <= text.len(),
            word_end(s, end as int) == word_end(s, start as int),
            cost == byte_len(s.subrange(start as int, end as int)) + 1,
            cost <= 4 * (end - start) + 1,
        decreases text.len() - end,
    {
        proof {
            lemma_byte_len_push(s.subrange(start as int, end as int), s[end as int]);
            assert(s.subrange(start as int, end as int).push(s[end as int]) =~= s.subrange(
                start as int,
                end + 1,
            ));
        }
        cost = cost + char_width(text[end]) as u128;
        end += 1;
    }
    (end, cost)
}

/// Wraps the words of `text`, given and returned as characters.
pub fn wrap_chars(text: &Vec<char>, line_length: usize) -> (lines: Vec<char>)
    ensures
        lines@ == wrapped(text@, line_length as nat),
{
    let ghost s = text@;
    let ghost limit = line_length as nat;
    let n = text.len();
    let mut lines: Vec<char> = Vec::new();
    let mut leftover: usize = line_length;
    let mut i: usize = 0;
    while i < n
        invariant
            n == text.len(),
            s == text@,
            limit == line_length as nat,
            i <= n,
            leftover <= line_length,
            wrapped(s, limit) == lines@ + laid_out(words_from(s, i as int), leftover as nat, limit),
        decreases n - i,
    {
        if char_is_whitespace(text[i]) {
            i += 1;
        } else {
            let (end, cost) = measure_word(text, i);
            let ghost before = lines@;
            let ghost word = s.subrange(i as int, end as int);
            let ghost rest = words_from(s, end as int);
            proof {
                lemma_word_end_bounds(s, i as int);
                assert(words_from(s, i as int) == seq![word] + rest);
                assert((seq![word] + rest)[0] == word);
                assert((seq![word] + rest).drop_first() =~= rest);
            }
            if cost > leftover as u128 {
                lines.push('\n');
                leftover = if cost >= line_length as u128 {
                    0
                } else {
                    line_length - cost as usize
                };
            } else {
                leftover = leftover - cost as usize;
            }
            let ghost opened = lines@;
            let start = i;
            while i < end
                invariant
                    s == text@,
                    start <= i <= end <= text.len(),
                    lines@ == opened + s.subrange(start as int, i as int),
                decreases end - i,
            {
                lines.push(text[i]);
                proof {
                    assert(s.subrange(start as int, i as int).push(s[i as int]) =~= s.subrange(
                        start as int,
                        i + 1,
                    ));
                }
                i += 1;
            }
            lines.push(' ');
            assert(wrapped(s, limit) =~= lines@ + laid_out(rest, leftover as nat, limit)) by {
                if opened == before {
                    assert(lines@ =~= before + (word + seq![' ']));
                } else {
                    assert(lines@ =~= before + (seq!['\n'] + word + seq![' ']));
                }
            }
        }
    }
    assert(words_from(s, n as int) =~= Seq::<Seq<char>>::empty());
    lines
}

/// The first line of the text, given and returned as characters.
pub fn first_line_chars(text: &Vec<char>) -> (line: Vec<char>)
    ensures
        line@ == first_line_of(text@),
{
    let ghost s = text@;
    let mut end: usize = 0;
    while end < text.len() && text[end] != '\n'
        invariant
            s == text@,
            end <= text.len(),
            line_end(s, end as int) == line_end(s, 0),
        decreases text.len() - end,
    {
        end += 1;
    }
    let stop = if 0 < end && end < text.len() && text[end - 1] == '\r' {
        end - 1
    } else {
        end
    };
    let mut line: Vec<char> = Vec::new();
    let mut i: usize = 0;
    while i < stop
        invariant
            s == text@,
            i <= stop <= text.len(),
            line@ == s.subrange(0, i as int),
        decreases stop - i,
    {
        line.push(text[i]);
        i += 1;
        assert(line@ =~= s.subrange(0, i as int));
    }
    line
}

/// Takes a maximum length in bytes and wraps the words of the text, putting
/// as many words on a line as fit. Runs of whitespace separate the words and
/// are not kept; every word of the result is followed by one space.
pub fn wrap_words(text: String, line_length: usize) -> (lines: String)
    ensures
        lines@ == wrapped(text@, line_length as nat),
{
    let chars = chars_of(text.as_str());
    let wrapped_chars = wrap_chars(&chars, line_length);
    string_of(&wrapped_chars)
}

/// The text of the overlay for a diagnostic: its first line, which later
/// lines mostly follow from, wrapped to the overlay's line length.
pub fn overlay_text(diagnostic: &str) -> (lines: String)
    ensures
        lines@ == wrapped(first_line_of(diagnostic@), OVERLAY_LINE_LENGTH as nat),
{
    let chars = chars_of(diagnostic);
    let line = first_line_chars(&chars);
    let wrapped_chars = wrap_chars(&line, OVERLAY_LINE_LENGTH);
    string_of(&wrapped_chars)
}

/// Remembers the text that the overlay was last rendered for, so that the
/// same text is not rendered twice in a row.
pub struct OverlayCache {
    prev_text: Option<String>,
}

impl View for OverlayCache {
    type V = Option<Seq<char>>;

    /// The text last rendered, if any.
    closed spec fn view(&self) -> Option<Seq<char>> {
        match self.prev_text {
            Some(text) => Some(text@),
            None => None,
        }
    }
}

impl OverlayCache {
    /// A cache for which nothing was rendered yet.
    pub fn new() -> (cache: Self)
        ensures
            cache@ is None,
    {
        OverlayCache { prev_text: None }
    }

    /// Says whether the text has to be rendered: unless it is the text
    /// that was rendered last. The text is then the one rendered last.
    pub fn needs_render(&mut self, text: &str) -> (render: bool)
        ensures
            render == (old(self)@ != Some(text@)),
            final(self)@ == Some(text@),
    {
        let wanted = text.to_owned();
        let same = match &self.prev_text {
            Some(prev) => *prev == wanted,
            None => false,
        };
        if !same {
            self.prev_text = Some(wanted);
        }
        !same
    }
}

/// The overlay is rasterized on a canvas of this many pixels across.
pub const CANVAS_WIDTH: usize = 800;

/// The overlay is rasterized on a canvas of this many pixels down.
pub const CANVAS_HEIGHT: usize = 500;

/// A pixel of the canvas: red, green, blue and alpha.
pub type Pixel = (u8, u8, u8, u8);

/// The pixels of the overlay, row by row: transparent where no glyph
/// covers them, red with the glyph's coverage as alpha where one does.
pub struct Canvas {
    rows: Vec<Vec<Pixel>>,
}

impl View for Canvas {
    type V = Seq<Seq<Pixel>>;

    closed spec fn view(&self) -> Seq<Seq<Pixel>> {
        Seq::new(self.rows@.len(), |r: int| self.rows@[r]@)
    }
}

/// As many rows as the canvas is high, each as long as it is wide.
pub open spec fn canvas_sized(rows: Seq<Seq<Pixel>>) -> bool {
    &&& rows.len() == CANVAS_HEIGHT
    &&& forall|r: int| 0 <= r < CANVAS_HEIGHT ==> (#[trigger] rows[r]).len() == CANVAS_WIDTH
}

/// Where a pixel of a glyph falls along one axis of the canvas: `offset`
/// pixels from the edge of the glyph's box at `min`, if that is within
/// `limit`.
pub open spec fn placed(min: i32, offset: u32, limit: usize) -> Option<usize> {
    if 0 <= min + offset < limit {
        Some((min + offset) as usize)
    } else {
        None
    }
}

/// Where a pixel of a glyph falls along one axis of the canvas, if it
/// falls on the canvas.
pub fn place(min: i32, offset: u32, limit: usize) -> (at: Option<usize>)
    ensures
        at == placed(min, offset, limit),
{
    let sum: i64 = min as i64 + offset as i64;
    if 0 <= sum && (sum as u64) < limit as u64 {
        Some(sum as usize)
    } else {
        None
    }
}

impl Canvas {
    /// The canvas has its size. `new` makes it so and `plot` keeps it so.
    pub open spec fn wf(&self) -> bool {
        canvas_sized(self@)
    }

    /// A canvas on which nothing is drawn: every pixel transparent.
    pub fn new() -> (canvas: Self)
        ensures
            canvas.wf(),
            forall|r: int, c: int|
                0 <= r < CANVAS_HEIGHT && 0 <= c < CANVAS_WIDTH ==> (#[trigger] canvas@[r][c]) == (
                    0u8,
                    0u8,
                    0u8,
                    0u8,
                ),
    {
        let mut rows: Vec<Vec<Pixel>> = Vec::new();
        while rows.len() < CANVAS_HEIGHT
            invariant
                rows@.len() <= CANVAS_HEIGHT,
                forall|r: int| 0 <= r < rows@.len() ==> (#[trigger] rows@[r])@.len() == CANVAS_WIDTH,
                forall|r: int, c: int|
                    0 <= r < rows@.len() && 0 <= c < CANVAS_WIDTH ==> (#[trigger] rows@[r]@[c]) == (
                        0u8,
                        0u8,
                        0u8,
                        0u8,
                    ),
            decreases CANVAS_HEIGHT - rows@.len(),
        {
            let mut row: Vec<Pixel> = Vec::new();
            while row.len() < CANVAS_WIDTH
                invariant
                    row@.len() <= CANVAS_WIDTH,
                    forall|c: int| 0 <= c < row@.len() ==> (#[trigger] row@[c]) == (0u8, 0u8, 0u8, 0u8),
                decreases CANVAS_WIDTH - row@.len(),
            {
                row.push((0, 0, 0, 0));
            }
            rows.push(row);
        }
        Canvas { rows }
    }

    /// Draws one pixel of a glyph: red, with the coverage as alpha. Every
    /// other pixel stays as it is.
    pub fn plot(&mut self, column: usize, row: usize, coverage: u8)
        requires
            old(self).wf(),
            column < CANVAS_WIDTH,
            row < CANVAS_HEIGHT,
        ensures
            final(self).wf(),
            final(self)@ == old(self)@.update(
                row as int,
                old(self)@[row as int].update(column as int, (255u8, 0u8, 0u8, coverage)),
            ),
    {
        let ghost before = self@;
        assert(before[row as int].len() == CANVAS_WIDTH);
        self.rows[row][column] = (255, 0, 0, coverage);
        assert(self@ =~= before.update(
            row as int,
            before[row as int].update(column as int, (255u8, 0u8, 0u8, coverage)),
        ));
    }

    /// The pixels row by row, as the renderer uploads them.
    pub fn into_rows(self) -> (rows: Vec<Vec<Pixel>>)
        ensures
            rows@.len() == self@.len(),
            forall|r: int| 0 <= r < rows@.len() ==> (#[trigger] rows@[r])@ == self@[r],
    {
        self.rows
    }
}

} // verus!

//! Text-related values and logic: spans into a document, the queries and
//! responses exchanged with a language service, and the mapping from a
//! highlighted document to token colors at byte offsets.
//!
//! A highlighted document is modeled as rows of tokens, each token
//! carrying its color and its byte length — exactly what the color
//! lookups read. Rows are separated by one newline byte.

use vstd::prelude::*;

use crate::color::Color32;

verus! {

/// A contiguous byte range of a document: `length` bytes from `start`.
#[derive(Clone, Copy, Debug, PartialEq, Eq, Structural)]
pub struct TextSpan {
    pub start: usize,
    pub length: usize,
}

impl TextSpan {
    /// Whether `offset` falls inside the span.
    pub fn includes_offset(&self, offset: usize) -> (r: bool)
        requires
            self.start + self.length <= usize::MAX,
        ensures
            r == (self.start <= offset && (offset as int) < self.start + self.length),
    {
        offset >= self.start && offset < self.start + self.length
    }
}

/// A call posted to the host's language service.
#[derive(Clone, Debug)]
pub struct JsCallQuery {
    pub kind: String,
    pub value: String,
}

impl JsCallQuery {
    /// A call of the given kind with its encoded argument.
    pub fn new(kind: String, value: String) -> (q: JsCallQuery)
        ensures
            q.kind == kind,
            q.value == value,
    {
        JsCallQuery { kind, value }
    }

    /// The call's kind.
    pub fn kind(&self) -> (r: String)
        ensures
            r == self.kind,
    {
        self.kind.clone()
    }

    /// The call's encoded argument.
    pub fn value(&self) -> (r: String)
        ensures
            r == self.value,
    {
        self.value.clone()
    }
}

/// An answer posted back by the host: which kind of call it answers, and
/// the answer's encoded payload.
#[derive(Clone, Debug)]
pub struct JsCallResponse {
    pub kind: String,
    pub value: String,
}

/// One piece of a symbol's display text.
#[derive(Clone, Debug)]
pub struct DisplayPart {
    pub text: String,
    pub kind: String,
}

/// The language service's hover answer: the symbol's kind, the span it
/// covers, and its display text.
#[derive(Clone, Debug)]
pub struct QuickInfoResponse {
    pub kind: String,
    pub text_span: TextSpan,
    pub display_parts: Vec<DisplayPart>,
}

/// A document fetched from the host, with the offset to scroll to.
#[derive(Clone, Debug)]
pub struct FileContentsResponse {
    pub filename: String,
    pub contents: String,
}

/// One highlighted token: the color it is drawn with and its byte length
/// in the document.
#[derive(Clone, Copy, Debug, PartialEq, Eq, Structural)]
pub struct Token {
    pub color: Color32,
    pub len: usize,
}

/// A highlighted document: one row of tokens per line, rows separated by
/// one newline byte.
#[derive(Clone, Debug)]
pub struct ColoredText(pub Vec<Vec<Token>>);

/// The rows of `t` as sequences.
pub open spec fn rows_view(t: ColoredText) -> Seq<Seq<Token>> {
    t.0@.map_values(|v: Vec<Token>| v@)
}

/// The bytes covered by the tokens of `row` from token `j` on.
pub open spec fn row_len_from(row: Seq<Token>, j: int) -> int
    decreases row.len() - j,
{
    if j < 0 || j >= row.len() {
        0
    } else {
        row[j].len + row_len_from(row, j + 1)
    }
}

/// The bytes covered by the rows of `rows` from row `i` on, one newline
/// byte after each row.
pub open spec fn rows_len_from(rows: Seq<Seq<Token>>, i: int) -> int
    decreases rows.len() - i,
{
    if i < 0 || i >= rows.len() {
        0
    } else {
        row_len_from(rows[i], 0) + 1 + rows_len_from(rows, i + 1)
    }
}

/// The color at byte position `offset` within `row`, counted from token
/// `j`: the color of the token whose range contains the position.
/// Zero-length tokens are skipped; a negative `offset` — a position
/// swallowed by an earlier newline — takes the first drawn token's color.
pub open spec fn row_color_from(row: Seq<Token>, j: int, offset: int) -> Option<Color32>
    decreases row.len() - j,
{
    if j < 0 || j >= row.len() {
        None
    } else if row[j].len == 0 {
        row_color_from(row, j + 1, offset)
    } else if offset < row[j].len {
        Some(row[j].color)
    } else {
        row_color_from(row, j + 1, offset - row[j].len)
    }
}

/// The color at byte position `offset` of the document, counted from row
/// `i`: each row consumes its tokens' bytes plus one newline byte.
pub open spec fn color_from(rows: Seq<Seq<Token>>, i: int, offset: int) -> Option<Color32>
    decreases rows.len() - i,
{
    if i < 0 || i >= rows.len() {
        None
    } else {
        match row_color_from(rows[i], 0, offset) {
            Some(c) => Some(c),
            None => color_from(rows, i + 1, offset - row_len_from(rows[i], 0) - 1),
        }
    }
}

/// The color drawn at byte offset `offset` of the document `rows`.
pub open spec fn color_at(rows: Seq<Seq<Token>>, offset: int) -> Option<Color32> {
    color_from(rows, 0, offset)
}

/// Token byte counts are never negative.
proof fn lemma_row_len_nonneg(row: Seq<Token>, j: int)
    ensures
        row_len_from(row, j) >= 0,
    decreases row.len() - j,
{
    if 0 <= j < row.len() {
        lemma_row_len_nonneg(row, j + 1);
    }
}

/// Document byte counts are never negative.
proof fn lemma_rows_len_nonneg(rows: Seq<Seq<Token>>, i: int)
    ensures
        rows_len_from(rows, i) >= 0,
    decreases rows.len() - i,
{
    if 0 <= i < rows.len() {
        lemma_row_len_nonneg(rows[i], 0);
        lemma_rows_len_nonneg(rows, i + 1);
    }
}

/// The color of the token drawn at byte offset `offset` of `text`, or
/// `None` when the offset lies past every drawn token.
pub fn try_color_at_offset(text: &ColoredText, offset: usize) -> (c: Option<Color32>)
    requires
        rows_len_from(rows_view(*text), 0) <= usize::MAX,
    ensures
        c == color_at(rows_view(*text), offset as int),
{
    let ghost rows = rows_view(*text);
    let mut iter: usize = 0;
    let mut i: usize = 0;
    while i < text.0.len()
        invariant
            rows == rows_view(*text),
            rows.len() == text.0@.len(),
            0 <= i <= rows.len(),
            iter as int + rows_len_from(rows, i as int) == rows_len_from(rows, 0),
            rows_len_from(rows, 0) <= usize::MAX,
            color_at(rows, offset as int) == color_from(rows, i as int, offset - iter),
        decreases rows.len() - i,
    {
        proof {
            assert(rows[i as int] == text.0@[i as int]@);
        }
        let row = &text.0[i];
        let ghost rowseq = rows[i as int];
        let mut j: usize = 0;
        while j < row.len()
            invariant
                rows == rows_view(*text),
                rowseq == row@,
                0 <= j <= rowseq.len(),
                0 <= i < rows.len(),
                rows[i as int] == rowseq,
                iter as int + row_len_from(rowseq, j as int) + 1 + rows_len_from(
                    rows,
                    i as int + 1,
                ) == rows_len_from(rows, 0),
                rows_len_from(rows, 0) <= usize::MAX,
                color_at(rows, offset as int) == (match row_color_from(
                    rowseq,
                    j as int,
                    offset - iter,
                ) {
                    Some(c) => Some(c),
                    None => color_from(
                        rows,
                        i as int + 1,
                        offset - iter - row_len_from(rowseq, j as int) - 1,
                    ),
                }),
            decreases rowseq.len() - j,
        {
            let token = &row[j];
            let len = token.len;
            if len > 0 {
                proof {
                    lemma_row_len_nonneg(rowseq, j as int + 1);
                    lemma_rows_len_nonneg(rows, i as int + 1);
                }
                if offset < iter + len {
                    proof {
                        assert(row_color_from(rowseq, j as int, offset - iter)
                            == Some(rowseq[j as int].color));
                    }
                    return Some(token.color);
                }
                iter += len;
            }
            j += 1;
        }
        proof {
            lemma_rows_len_nonneg(rows, i as int + 1);
        }
        iter += 1;
        i += 1;
    }
    None
}

/// The color of the token drawn at byte offset `offset` of `text`.
///
/// The offset must fall on some drawn token: past-the-end offsets have no
/// color and are the caller's error.
pub fn get_color_at_offset(text: &ColoredText, offset: usize) -> (c: Color32)
    requires
        rows_len_from(rows_view(*text), 0) <= usize::MAX,
        color_at(rows_view(*text), offset as int) is Some,
    ensures
        Some(c) == color_at(rows_view(*text), offset as int),
{
    match try_color_at_offset(text, offset) {
        Some(c) => c,
        None => vstd::pervasive::unreached(),
    }
}

/// The drawn tokens of `row` from token `j` on, when the row starts at
/// byte position `pos`: each as the position one past its last byte,
/// paired with its color. Zero-length tokens are not drawn.
pub open spec fn row_stops_from(row: Seq<Token>, j: int, pos: int) -> Seq<(int, Color32)>
    decreases row.len() - j,
{
    if j < 0 || j >= row.len() {
        Seq::empty()
    } else if row[j].len == 0 {
        row_stops_from(row, j + 1, pos)
    } else {
        seq![(pos + row[j].len, row[j].color)] + row_stops_from(row, j + 1, pos + row[j].len)
    }
}

/// The drawn tokens of the document from row `i` on, when that row starts
/// at byte position `pos`; each row is followed by one newline byte.
pub open spec fn stops_from(rows: Seq<Seq<Token>>, i: int, pos: int) -> Seq<(int, Color32)>
    decreases rows.len() - i,
{
    if i < 0 || i >= rows.len() {
        Seq::empty()
    } else {
        row_stops_from(rows[i], 0, pos) + stops_from(
            rows,
            i + 1,
            pos + row_len_from(rows[i], 0) + 1,
        )
    }
}

/// The end offsets of `stops` with their colors, as mathematical pairs.
pub open spec fn stops_view(stops: Seq<(usize, Color32)>) -> Seq<(int, Color32)> {
    stops.map_values(|p: (usize, Color32)| (p.0 as int, p.1))
}

/// For every drawn token of `text`, in order, the byte offset one past
/// the token's last byte together with the token's color: what a painter
/// needs to color a laid-out document.
pub fn token_color_stops(text: &ColoredText) -> (stops: Vec<(usize, Color32)>)
    requires
        rows_len_from(rows_view(*text), 0) <= usize::MAX,
    ensures
        stops_view(stops@) == stops_from(rows_view(*text), 0, 0),
{
    let ghost rows = rows_view(*text);
    let mut out: Vec<(usize, Color32)> = Vec::new();
    let mut iter: usize = 0;
    let mut i: usize = 0;
    while i < text.0.len()
        invariant
            rows == rows_view(*text),
            rows.len() == text.0@.len(),
            0 <= i <= rows.len(),
            iter as int + rows_len_from(rows, i as int) == rows_len_from(rows, 0),
            rows_len_from(rows, 0) <= usize::MAX,
            stops_from(rows, 0, 0) == stops_view(out@) + stops_from(rows, i as int, iter as int),
        decreases rows.len() - i,
    {
        proof {
            assert(rows[i as int] == text.0@[i as int]@);
        }
        let row = &text.0[i];
        let ghost rowseq = rows[i as int];
        let mut j: usize = 0;
        while j < row.len()
            invariant
                rows == rows_view(*text),
                rowseq == row@,
                0 <= j <= rowseq.len(),
                0 <= i < rows.len(),
                rows[i as int] == rowseq,
                iter as int + row_len_from(rowseq, j as int) + 1 + rows_len_from(
                    rows,
                    i as int + 1,
                ) == rows_len_from(rows, 0),
                rows_len_from(rows, 0) <= usize::MAX,
                stops_from(rows, 0, 0) == stops_view(out@) + row_stops_from(
                    rowseq,
                    j as int,
                    iter as int,
                ) + stops_from(
                    rows,
                    i as int + 1,
                    iter as int + row_len_from(rowseq, j as int) + 1,
                ),
            decreases rowseq.len() - j,
        {
            let token = &row[j];
            let len = token.len;
            if len > 0 {
                proof {
                    lemma_row_len_nonneg(rowseq, j as int + 1);
                    lemma_rows_len_nonneg(rows, i as int + 1);
                }
                iter += len;
                out.push((iter, token.color));
                proof {
                    assert(stops_view(out@) =~= stops_view(out@.drop_last()) + seq![
                        (iter as int, token.color),
                    ]);
                    assert(stops_view(out@.drop_last()) + row_stops_from(
                        rowseq,
                        j as int,
                        iter as int - len,
                    ) =~= stops_view(out@) + row_stops_from(rowseq, j as int + 1, iter as int));
                }
            }
            j += 1;
        }
        proof {
            lemma_rows_len_nonneg(rows, i as int + 1);
        }
        iter += 1;
        i += 1;
    }
    proof {
        assert(stops_from(rows, i as int, iter as int) == Seq::<(int, Color32)>::empty());
        assert(stops_view(out@) =~= stops_view(out@) + Seq::<(int, Color32)>::empty());
    }
    out
}

} // verus!

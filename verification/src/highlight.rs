//! SQL highlighting: from syntax events to styled ranges of the text.
use tree_sitter_highlight::{HighlightConfiguration, HighlightEvent, Highlighter};
use unicode_width::{UnicodeWidthChar, UnicodeWidthStr};
use vstd::prelude::*;
use vstd::string::*;

use crate::text::{chars_of, decimal, decimal_text, same_text};
use crate::theme::{colored_style, palette, plain_style, theme, TextStyle};
use crate::value::Value;

verus! {

/// One step through highlighted source text.
#[derive(Debug, PartialEq, Eq)]
pub enum SyntaxEvent {
    /// Text from one byte to another.
    Source {
        start: usize,
        end: usize,
    },
    /// A capture begins; the number indexes the capture names.
    Start(usize),
    /// The innermost capture ends.
    End,
}

/// What a `SyntaxEvent` denotes.
pub ghost enum SyntaxEventView {
    Source {
        start: usize,
        end: usize,
    },
    Start(usize),
    End,
}

impl DeepView for SyntaxEvent {
    type V = SyntaxEventView;

    open spec fn deep_view(&self) -> SyntaxEventView {
        match self {
            SyntaxEvent::Source { start, end } => SyntaxEventView::Source {
                start: *start,
                end: *end,
            },
            SyntaxEvent::Start(value) => SyntaxEventView::Start(*value),
            SyntaxEvent::End => SyntaxEventView::End,
        }
    }
}

impl Clone for SyntaxEvent {
    fn clone(&self) -> (copy: SyntaxEvent)
        ensures
            copy@ == self@,
    {
        self.duplicate()
    }
}

impl View for SyntaxEvent {
    type V = SyntaxEventView;

    open spec fn view(&self) -> SyntaxEventView {
        self.deep_view()
    }
}

impl Value for SyntaxEvent {
    fn duplicate(&self) -> (copy: SyntaxEvent) {
        match self {
            SyntaxEvent::Source { start, end } => SyntaxEvent::Source { start: *start, end: *end },
            SyntaxEvent::Start(value) => SyntaxEvent::Start(*value),
            SyntaxEvent::End => SyntaxEvent::End,
        }
    }

    fn same(&self, other: &SyntaxEvent) -> (same: bool) {
        match (self, other) {
            (
                SyntaxEvent::Source { start: start_a, end: end_a },
                SyntaxEvent::Source { start: start_b, end: end_b },
            ) => {
                *start_a == *start_b && *end_a == *end_b
            },
            (SyntaxEvent::Start(value_a), SyntaxEvent::Start(value_b)) => *value_a == *value_b,
            (SyntaxEvent::End, SyntaxEvent::End) => true,
            _ => false,
        }
    }
}

/// The events that highlighting gives, for extra query text, capture names and a source; none where the
/// highlighter fails.
pub uninterp spec fn syntax_events(
    additions: Seq<char>,
    names: Seq<Seq<char>>,
    source: Seq<char>,
) -> Option<Seq<SyntaxEventView>>;

/// `tree_sitter_highlight::Highlighter::highlight` with the grammar and the highlight query of
/// `tree_sitter_sequel`, to which `additions` are appended, and configured with the capture names. The
/// events are a function of the three texts.
#[verifier::external_body]
fn highlight(additions: &str, names: &Vec<String>, source: &str) -> (events: Option<
    Vec<SyntaxEvent>,
>)
    ensures
        events.deep_view() == syntax_events(additions@, names.deep_view(), source@),
{
    let query = format!("{}\n{}", tree_sitter_sequel::HIGHLIGHTS_QUERY, additions);
    let language = tree_sitter_sequel::LANGUAGE.into();
    let mut rules = HighlightConfiguration::new(language, "sql", &query, "", "").ok()?;
    rules.configure(names);
    let mut highlighter = Highlighter::new();
    let events = highlighter.highlight(&rules, source.as_bytes(), None, None, |_| None).ok()?;
    let convert = |event| Some(match event {
        HighlightEvent::Source { start, end } => SyntaxEvent::Source { start, end },
        HighlightEvent::HighlightStart(capture) => SyntaxEvent::Start(capture.0),
        HighlightEvent::HighlightEnd => SyntaxEvent::End,
    });
    events.map(|event| event.ok().and_then(convert)).collect()
}

/// Rules for numbers, in place of the grammar's own numeric rules, which its query language rejects.
pub open spec fn number_rules() -> Seq<char> {
    "\n((literal) @number\n  (#match? @number \"^[-+]?[0-9]+$\"))\n((literal) @float\n  (#match? @float \"^[-+]?[0-9]*\\.[0-9]+([eE][-+]?[0-9]+)?$\"))\n"@
}

/// The captures that the SQL query emits.
pub open spec fn capture_names() -> Seq<Seq<char>> {
    seq![
        "attribute"@,
        "boolean"@,
        "comment"@,
        "conditional"@,
        "field"@,
        "float"@,
        "function.call"@,
        "keyword"@,
        "keyword.operator"@,
        "number"@,
        "operator"@,
        "parameter"@,
        "punctuation.bracket"@,
        "punctuation.delimiter"@,
        "spell"@,
        "storageclass"@,
        "string"@,
        "type"@,
        "type.builtin"@,
        "type.qualifier"@,
        "variable"@,
    ]
}

fn list_capture_names() -> (names: Vec<String>)
    ensures
        names.deep_view() == capture_names(),
{
    let mut names: Vec<String> = Vec::new();
    names.push("attribute".to_owned());
    names.push("boolean".to_owned());
    names.push("comment".to_owned());
    names.push("conditional".to_owned());
    names.push("field".to_owned());
    names.push("float".to_owned());
    names.push("function.call".to_owned());
    names.push("keyword".to_owned());
    names.push("keyword.operator".to_owned());
    names.push("number".to_owned());
    names.push("operator".to_owned());
    names.push("parameter".to_owned());
    names.push("punctuation.bracket".to_owned());
    names.push("punctuation.delimiter".to_owned());
    names.push("spell".to_owned());
    names.push("storageclass".to_owned());
    names.push("string".to_owned());
    names.push("type".to_owned());
    names.push("type.builtin".to_owned());
    names.push("type.qualifier".to_owned());
    names.push("variable".to_owned());
    assert(names.deep_view() =~= capture_names());
    names
}

/// The style of a capture.
pub open spec fn style_of(name: Seq<char>) -> TextStyle {
    if name == "keyword"@ || name == "keyword.operator"@ {
        TextStyle { bold: true, ..colored_style(palette().accent) }
    } else if name == "conditional"@ || name == "storageclass"@ || name == "type"@ || name
        == "type.builtin"@ || name == "type.qualifier"@ || name == "boolean"@ {
        colored_style(palette().purple)
    } else if name == "function.call"@ || name == "operator"@ {
        colored_style(palette().cyan)
    } else if name == "string"@ {
        colored_style(palette().green)
    } else if name == "number"@ || name == "float"@ || name == "parameter"@ || name
        == "attribute"@ {
        colored_style(palette().yellow)
    } else if name == "comment"@ || name == "spell"@ {
        TextStyle { italic: true, ..colored_style(palette().muted) }
    } else if name == "punctuation.bracket"@ || name == "punctuation.delimiter"@ {
        colored_style(palette().muted)
    } else {
        plain_style()
    }
}

/// The style of a capture.
pub fn capture_style(name: &str) -> (style: TextStyle)
    ensures
        style == style_of(name@),
{
    if same_text(name, "keyword") || same_text(name, "keyword.operator") {
        TextStyle { foreground: Some(theme().accent), bold: true, italic: false, dim: false }
    } else if same_text(name, "conditional") || same_text(name, "storageclass") || same_text(
        name,
        "type",
    ) || same_text(name, "type.builtin") || same_text(name, "type.qualifier") || same_text(
        name,
        "boolean",
    ) {
        TextStyle::colored(theme().purple)
    } else if same_text(name, "function.call") || same_text(name, "operator") {
        TextStyle::colored(theme().cyan)
    } else if same_text(name, "string") {
        TextStyle::colored(theme().green)
    } else if same_text(name, "number") || same_text(name, "float") || same_text(name, "parameter")
        || same_text(name, "attribute") {
        TextStyle::colored(theme().yellow)
    } else if same_text(name, "comment") || same_text(name, "spell") {
        TextStyle { foreground: Some(theme().muted), bold: false, italic: true, dim: false }
    } else if same_text(name, "punctuation.bracket") || same_text(name, "punctuation.delimiter") {
        TextStyle::colored(theme().muted)
    } else {
        TextStyle::plain()
    }
}

/// A range of bytes and its style.
#[derive(Clone, Copy, Debug, PartialEq, Eq, Structural)]
pub struct StyledRange {
    pub start: usize,
    pub end: usize,
    pub style: TextStyle,
}

/// The open styles and the ranges behind some events. The outermost style is plain, and a range takes the
/// innermost.
pub open spec fn styled(events: Seq<SyntaxEventView>, names: Seq<Seq<char>>) -> (
    Seq<TextStyle>,
    Seq<StyledRange>,
)
    decreases events.len(),
{
    if events.len() == 0 {
        (seq![plain_style()], Seq::empty())
    } else {
        let (styles, ranges) = styled(events.drop_last(), names);
        match events.last() {
            SyntaxEventView::Source { start, end } => (
                styles,
                ranges.push(
                    StyledRange {
                        start,
                        end,
                        style: if styles.len() > 0 { styles.last() } else { plain_style() },
                    },
                ),
            ),
            SyntaxEventView::Start(capture) => (
                styles.push(
                    if capture < names.len() {
                        style_of(names[capture as int])
                    } else {
                        plain_style()
                    },
                ),
                ranges,
            ),
            SyntaxEventView::End => (
                if styles.len() > 0 {
                    styles.drop_last()
                } else {
                    styles
                },
                ranges,
            ),
        }
    }
}

/// The styled ranges behind syntax events.
pub fn ranges_of(events: &Vec<SyntaxEvent>, names: &Vec<String>) -> (ranges: Vec<StyledRange>)
    ensures
        ranges@ == styled(events.deep_view(), names.deep_view()).1,
{
    let ghost all = events.deep_view();
    let ghost known = names.deep_view();
    let mut ranges: Vec<StyledRange> = Vec::new();
    let mut styles: Vec<TextStyle> = Vec::new();
    styles.push(TextStyle::plain());
    let mut i: usize = 0;
    proof {
        assert(styles@ =~= styled(all.take(0), known).0);
        assert(ranges@ =~= styled(all.take(0), known).1);
    }
    while i < events.len()
        invariant
            i <= events@.len(),
            all == events.deep_view(),
            known == names.deep_view(),
            (styles@, ranges@) == styled(all.take(i as int), known),
        decreases events@.len() - i,
    {
        proof {
            let next = all.take(i + 1);
            assert(next.drop_last() =~= all.take(i as int));
            assert(next.last() == events@[i as int]@);
        }
        match &events[i] {
            SyntaxEvent::Source { start, end } => {
                let style = if styles.len() > 0 {
                    styles[styles.len() - 1]
                } else {
                    TextStyle::plain()
                };
                ranges.push(StyledRange { start: *start, end: *end, style });
            },
            SyntaxEvent::Start(capture) => {
                let style = if *capture < names.len() {
                    capture_style(names[*capture].as_str())
                } else {
                    TextStyle::plain()
                };
                styles.push(style);
            },
            SyntaxEvent::End => {
                let _ = styles.pop();
            },
        }
        i += 1;
    }
    assert(all.take(i as int) =~= all);
    ranges
}

/// The styled ranges of SQL text; none where the highlighter fails.
pub fn highlight_ranges(source: &str) -> (ranges: Vec<StyledRange>)
    ensures
        ranges@ == (match syntax_events(number_rules(), capture_names(), source@) {
            Some(events) => styled(events, capture_names()).1,
            None => Seq::empty(),
        }),
{
    let names = list_capture_names();
    match highlight(
        "\n((literal) @number\n  (#match? @number \"^[-+]?[0-9]+$\"))\n((literal) @float\n  (#match? @float \"^[-+]?[0-9]*\\.[0-9]+([eE][-+]?[0-9]+)?$\"))\n",
        &names,
        source,
    ) {
        Some(events) => ranges_of(&events, &names),
        None => {
            let ranges: Vec<StyledRange> = Vec::new();
            assert(ranges@ =~= Seq::empty());
            ranges
        },
    }
}

/// The number of terminal columns of a character; none for a control character.
pub uninterp spec fn char_columns(c: char) -> Option<usize>;

/// `UnicodeWidthChar::width`: a function of the character alone, and no larger than a byte.
#[verifier::external_body]
fn char_width(c: char) -> (width: Option<usize>)
    ensures
        width == char_columns(c),
        width matches Some(columns) ==> columns <= 255,
{
    c.width()
}

/// The number of terminal columns of a text.
pub uninterp spec fn text_columns(text: Seq<char>) -> usize;

/// `UnicodeWidthStr::width`: a function of the text alone.
#[verifier::external_body]
pub(crate) fn text_width(text: &str) -> (width: usize)
    ensures
        width == text_columns(text@),
{
    text.width()
}

/// The columns that a character takes at a column; tabs stop at every fourth.
pub open spec fn columns_at(c: char, column: nat) -> nat {
    if c == '\t' {
        (4 - column % 4) as nat
    } else {
        match char_columns(c) {
            Some(width) => width as nat,
            None => 0,
        }
    }
}

/// The columns that a character takes at a column.
pub fn character_width(character: char, column: usize) -> (width: usize)
    ensures
        width == columns_at(character, column as nat),
        width <= 255,
{
    if character == '\t' {
        4 - (column % 4)
    } else {
        match char_width(character) {
            Some(width) => width,
            None => 0,
        }
    }
}

/// The number of bytes of a character in UTF-8.
pub open spec fn utf8_length(c: char) -> nat {
    if (c as u32) < 0x80 {
        1
    } else if (c as u32) < 0x800 {
        2
    } else if (c as u32) < 0x10000 {
        3
    } else {
        4
    }
}

fn utf8_len(c: char) -> (length: usize)
    ensures
        length == utf8_length(c),
        length <= 4,
{
    if (c as u32) < 0x80 {
        1
    } else if (c as u32) < 0x800 {
        2
    } else if (c as u32) < 0x10000 {
        3
    } else {
        4
    }
}

/// The number of bytes of a text in UTF-8.
pub open spec fn byte_length(text: Seq<char>) -> nat
    decreases text.len(),
{
    if text.len() == 0 {
        0
    } else {
        byte_length(text.drop_last()) + utf8_length(text.last())
    }
}

/// The number of columns of a text that starts at the left edge.
pub open spec fn display_length(text: Seq<char>) -> nat
    decreases text.len(),
{
    if text.len() == 0 {
        0
    } else {
        let column = display_length(text.drop_last());
        column + columns_at(text.last(), column)
    }
}

/// Whether range `k` is the first that ends behind an offset.
pub open spec fn reaches(ranges: Seq<StyledRange>, offset: nat, k: int) -> bool {
    0 <= k < ranges.len() && ranges[k].end > offset && forall|j: int|
        0 <= j < k ==> (#[trigger] ranges[j]).end <= offset
}

/// The style at an offset; ranges ascend, so that the first that ends behind it is the one that covers it.
pub open spec fn style_at(ranges: Seq<StyledRange>, offset: nat) -> TextStyle {
    if exists|k: int| reaches(ranges, offset, k) {
        let range = ranges[choose|k: int| reaches(ranges, offset, k)];
        if range.start <= offset {
            range.style
        } else {
            plain_style()
        }
    } else {
        plain_style()
    }
}

/// The cells of some columns that show in an area, behind a gutter and scrolled by `top`.
pub open spec fn shown_cells(
    column: int,
    count: nat,
    style: TextStyle,
    gutter: int,
    top: int,
    width: int,
) -> Seq<(u16, TextStyle)>
    decreases count,
{
    if count == 0 {
        Seq::empty()
    } else {
        let earlier = shown_cells(column, (count - 1) as nat, style, gutter, top, width);
        let x = gutter + column + count - 1 - top;
        if 0 <= x < width {
            earlier.push((x as u16, style))
        } else {
            earlier
        }
    }
}

/// The styled cells of a line whose first byte stands at `offset` of the source.
pub open spec fn line_cells(
    line: Seq<char>,
    offset: nat,
    ranges: Seq<StyledRange>,
    gutter: int,
    top: int,
    width: int,
) -> Seq<(u16, TextStyle)>
    decreases line.len(),
{
    if line.len() == 0 {
        Seq::empty()
    } else {
        let front = line.drop_last();
        let column = display_length(front);
        line_cells(front, offset, ranges, gutter, top, width) + shown_cells(
            column as int,
            columns_at(line.last(), column),
            style_at(ranges, offset + byte_length(front)),
            gutter,
            top,
            width,
        )
    }
}

/// Adds the cells of some columns that show in an area, behind a gutter and scrolled by `top`.
pub fn push_cells(
    cells: &mut Vec<(u16, TextStyle)>,
    column: u128,
    count: usize,
    style: TextStyle,
    gutter: usize,
    top: usize,
    width: u16,
)
    requires
        gutter + column + count <= u128::MAX,
    ensures
        final(cells)@ == old(cells)@ + shown_cells(
            column as int,
            count as nat,
            style,
            gutter as int,
            top as int,
            width as int,
        ),
{
    let ghost before = cells@;
    let mut i: usize = 0;
    assert(cells@ =~= before + Seq::empty());
    while i < count
        invariant
            i <= count,
            gutter + column + count <= u128::MAX,
            cells@ =~= before + shown_cells(
                column as int,
                i as nat,
                style,
                gutter as int,
                top as int,
                width as int,
            ),
        decreases count - i,
    {
        let shifted: u128 = gutter as u128 + column + i as u128;
        if shifted >= top as u128 && shifted - (top as u128) < width as u128 {
            cells.push(((shifted - top as u128) as u16, style));
        }
        i += 1;
    }
}

fn find_style(ranges: &Vec<StyledRange>, from: usize, offset: u128) -> (found: (usize, TextStyle))
    requires
        from <= ranges@.len(),
        forall|j: int| 0 <= j < from ==> (#[trigger] ranges@[j]).end <= offset,
    ensures
        from <= found.0 <= ranges@.len(),
        forall|j: int| 0 <= j < found.0 ==> (#[trigger] ranges@[j]).end <= offset,
        found.1 == style_at(ranges@, offset as nat),
{
    let mut k: usize = from;
    while k < ranges.len() && ranges[k].end as u128 <= offset
        invariant
            from <= k <= ranges@.len(),
            forall|j: int| 0 <= j < k ==> (#[trigger] ranges@[j]).end <= offset,
        decreases ranges@.len() - k,
    {
        k += 1;
    }
    if k < ranges.len() {
        proof {
            assert(reaches(ranges@, offset as nat, k as int));
            let other = choose|j: int| reaches(ranges@, offset as nat, j);
            assert(other == k) by {
                if other < k {
                    assert(ranges@[other].end <= offset);
                } else if k < other {
                    assert(ranges@[k as int].end <= offset);
                }
            }
        }
        let range = ranges[k];
        if range.start as u128 <= offset {
            (k, range.style)
        } else {
            (k, TextStyle::plain())
        }
    } else {
        proof {
            assert forall|j: int| !reaches(ranges@, offset as nat, j) by {
                if 0 <= j < ranges@.len() {
                    assert(ranges@[j].end <= offset);
                }
            }
        }
        (k, TextStyle::plain())
    }
}

/// The styled cells of a line whose first byte stands at `offset` of the source: positions in an area of some
/// width, behind a gutter and scrolled by `top` columns.
pub fn style_line(
    line: &str,
    offset: usize,
    ranges: &Vec<StyledRange>,
    top: usize,
    gutter: usize,
    width: u16,
) -> (cells: Vec<(u16, TextStyle)>)
    ensures
        cells@ == line_cells(
            line@,
            offset as nat,
            ranges@,
            gutter as int,
            top as int,
            width as int,
        ),
{
    let chars = chars_of(line);
    let mut cells: Vec<(u16, TextStyle)> = Vec::new();
    let mut column: u128 = 0;
    let mut at: u128 = offset as u128;
    let mut range: usize = 0;
    let mut i: usize = 0;
    assert(line@.take(0) =~= Seq::empty());
    while i < chars.len()
        invariant
            i <= chars@.len(),
            chars@ == line@,
            column == display_length(line@.take(i as int)),
            column <= 255 * i,
            at == offset + byte_length(line@.take(i as int)),
            at <= offset + 4 * i,
            range <= ranges@.len(),
            forall|j: int| 0 <= j < range ==> (#[trigger] ranges@[j]).end <= at,
            cells@ == line_cells(
                line@.take(i as int),
                offset as nat,
                ranges@,
                gutter as int,
                top as int,
                width as int,
            ),
        decreases chars@.len() - i,
    {
        let c = chars[i];
        proof {
            let next = line@.take(i + 1);
            assert(next.drop_last() =~= line@.take(i as int));
            assert(next.last() == c);
        }
        let (k, style) = find_style(ranges, range, at);
        range = k;
        let taken = character_width(c, (column % 4) as usize);
        assert(taken == columns_at(c, column as nat));
        push_cells(&mut cells, column, taken, style, gutter, top, width);
        column = column + taken as u128;
        at = at + utf8_len(c) as u128;
        i += 1;
    }
    assert(line@.take(i as int) =~= line@);
    cells
}

/// Where a line starts in the text that its lines make up, one line feed behind each.
pub open spec fn line_start(lines: Seq<Seq<char>>, row: int) -> nat
    decreases row,
{
    if row <= 0 {
        0
    } else {
        line_start(lines, row - 1) + byte_length(lines[row - 1]) + 1
    }
}

proof fn lemma_far_offsets_agree(
    line: Seq<char>,
    offset: nat,
    other: nat,
    ranges: Seq<StyledRange>,
    gutter: int,
    top: int,
    width: int,
)
    requires
        offset >= usize::MAX,
        other >= usize::MAX,
    ensures
        line_cells(line, offset, ranges, gutter, top, width) == line_cells(
            line,
            other,
            ranges,
            gutter,
            top,
            width,
        ),
    decreases line.len(),
{
    if line.len() > 0 {
        let front = line.drop_last();
        lemma_far_offsets_agree(front, offset, other, ranges, gutter, top, width);
        assert forall|k: int| !#[trigger] reaches(ranges, offset + byte_length(front), k) by {}
        assert forall|k: int| !#[trigger] reaches(ranges, other + byte_length(front), k) by {}
    }
}

fn byte_len(line: &str) -> (length: u128)
    ensures
        length == byte_length(line@),
        length <= 4 * usize::MAX,
{
    let chars = chars_of(line);
    let mut length: u128 = 0;
    let mut i: usize = 0;
    assert(line@.take(0) =~= Seq::empty());
    while i < chars.len()
        invariant
            i <= chars@.len(),
            chars@ == line@,
            length == byte_length(line@.take(i as int)),
            length <= 4 * i,
        decreases chars@.len() - i,
    {
        proof {
            let next = line@.take(i + 1);
            assert(next.drop_last() =~= line@.take(i as int));
            assert(next.last() == chars@[i as int]);
        }
        length = length + utf8_len(chars[i]) as u128;
        i += 1;
    }
    assert(line@.take(i as int) =~= line@);
    length
}

/// How many of a number of lines show in an area of some height, from the first shown line on.
pub open spec fn shown_count(lines: nat, first: int, height: int) -> int {
    if first >= lines {
        0
    } else if lines - first < height {
        lines - first
    } else {
        height
    }
}

/// The styled cells of each line that shows, from the top of an area: `origin` is the first line and the first
/// column that show.
pub fn style_rows(
    lines: &Vec<String>,
    ranges: &Vec<StyledRange>,
    origin: (usize, usize),
    gutter: usize,
    width: u16,
    height: u16,
) -> (rows: Vec<Vec<(u16, TextStyle)>>)
    ensures
        rows@.len() == shown_count(lines@.len(), origin.0 as int, height as int),
        forall|y: int|
            0 <= y < rows@.len() ==> (#[trigger] rows@[y])@ == line_cells(
                lines@[origin.0 + y]@,
                line_start(lines.deep_view(), origin.0 + y),
                ranges@,
                gutter as int,
                origin.1 as int,
                width as int,
            ),
{
    let ghost all = lines.deep_view();
    let mut rows: Vec<Vec<(u16, TextStyle)>> = Vec::new();
    let mut offset: usize = 0;
    let mut row: usize = 0;
    let mut searching = true;
    while searching && row < lines.len()
        invariant
            row <= lines@.len(),
            all == lines.deep_view(),
            offset as int == (if line_start(all, row as int) < usize::MAX {
                line_start(all, row as int) as int
            } else {
                usize::MAX as int
            }),
            rows@.len() == (if row <= origin.0 {
                0
            } else {
                row - origin.0
            }),
            rows@.len() <= height,
            !searching ==> rows@.len() == height,
            forall|y: int|
                0 <= y < rows@.len() ==> (#[trigger] rows@[y])@ == line_cells(
                    lines@[origin.0 + y]@,
                    line_start(all, origin.0 + y),
                    ranges@,
                    gutter as int,
                    origin.1 as int,
                    width as int,
                ),
        decreases lines@.len() - row + if searching { 1int } else { 0 },
    {
        assert(all[row as int] == lines@[row as int]@);
        if row >= origin.0 && rows.len() == height as usize {
            searching = false;
        } else {
            let line = &lines[row];
            if row >= origin.0 {
                let cells = style_line(line.as_str(), offset, ranges, origin.1, gutter, width);
                proof {
                    if line_start(all, row as int) >= usize::MAX {
                        lemma_far_offsets_agree(
                            line@,
                            offset as nat,
                            line_start(all, row as int),
                            ranges@,
                            gutter as int,
                            origin.1 as int,
                            width as int,
                        );
                    }
                }
                rows.push(cells);
            }
            let next: u128 = offset as u128 + byte_len(line.as_str()) + 1;
            offset = if next < usize::MAX as u128 {
                next as usize
            } else {
                usize::MAX
            };
            row += 1;
        }
    }
    rows
}

/// The width of the gutter with line numbers.
pub open spec fn line_gutter(lines: nat) -> nat {
    decimal(
        if lines > 0 {
            lines
        } else {
            1
        },
    ).len() + 2
}

/// The width of the gutter with line numbers.
pub fn line_number_width(lines: usize) -> (width: usize)
    ensures
        width == line_gutter(lines as nat),
{
    let text = decimal_text(
        if lines > 0 {
            lines as u64
        } else {
            1
        },
    );
    let digits = text.as_str().unicode_len();
    proof {
        decimals_are_short(
            if lines > 0 {
                lines as nat
            } else {
                1
            },
        );
    }
    digits + 2
}

/// A machine word has at most twenty decimal digits.
pub proof fn decimals_are_short(n: nat)
    requires
        n <= u64::MAX,
    ensures
        decimal(n).len() <= 20,
{
    reveal_with_fuel(pow10, 21);
    lemma_decimal_is_short(n, 20);
}

proof fn lemma_decimal_is_short(n: nat, digits: nat)
    requires
        n < pow10(digits),
        digits > 0,
    ensures
        decimal(n).len() <= digits,
    decreases digits,
{
    if n >= 10 {
        assert(n / 10 < pow10((digits - 1) as nat)) by (nonlinear_arith)
            requires
                n < 10 * pow10((digits - 1) as nat),
        ;
        lemma_decimal_is_short(n / 10, (digits - 1) as nat);
        assert(decimal(n) == decimal(n / 10).push(crate::text::digit(n % 10)));
    }
}

spec fn pow10(digits: nat) -> nat
    decreases digits,
{
    if digits == 0 {
        1
    } else {
        10 * pow10((digits - 1) as nat)
    }
}

/// The first line and the first column that show, given where the cursor stands in the text and in the area.
pub open spec fn scroll_origin(
    cursor: (usize, usize),
    shown: Option<(usize, usize)>,
    gutter: usize,
) -> (int, int) {
    match shown {
        Some((row, column)) => (
            if cursor.0 > row {
                cursor.0 - row
            } else {
                0
            },
            if cursor.1 + gutter > column {
                cursor.1 + gutter - column
            } else {
                0
            },
        ),
        None => (0, 0),
    }
}

/// The first line and the first column that show.
pub fn viewport_origin(cursor: (usize, usize), shown: Option<(usize, usize)>, gutter: usize) -> (origin: (
    usize,
    usize,
))
    requires
        cursor.1 + gutter <= usize::MAX,
    ensures
        (origin.0 as int, origin.1 as int) == scroll_origin(cursor, shown, gutter),
{
    match shown {
        Some((row, column)) => (
            if cursor.0 > row {
                cursor.0 - row
            } else {
                0
            },
            if cursor.1 + gutter > column {
                cursor.1 + gutter - column
            } else {
                0
            },
        ),
        None => (0, 0),
    }
}

} // verus!

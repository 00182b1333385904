//! The render pipeline: a pure function from the application state and the
//! viewport geometry to a layout of styled text regions. The surrounding
//! program only paints the returned [`Screen`] onto the terminal; everything
//! it shows is decided and proved here.

use vstd::prelude::*;
use vstd::string::StrSliceExecFns;
use vstd::string::StringExecFns;

use crate::app::{join_label_names, label_names_chars, lemma_filtered_view, App, InputMode};
use crate::model::{Issue, Label};
use crate::text::{
    dec_digits, first_occ, find_char, lemma_first_occ, push_char, spec_lines, split_lines,
    u64_to_string, usize_to_string,
};

verus! {

// ---------------------------------------------------------------------------
// Styled text
// ---------------------------------------------------------------------------

/// A color of the terminal theme; `Reset` is the terminal's default.
#[derive(Clone, Copy, Debug, PartialEq, Eq, Structural)]
pub enum Color {
    Reset,
    Black,
    White,
    Gray,
    DarkGray,
    Cyan,
    Yellow,
    Rgb(u8, u8, u8),
}

/// How a run of text is drawn.
#[derive(Clone, Copy, Debug, PartialEq, Eq, Structural)]
pub struct Style {
    pub fg: Color,
    pub bg: Color,
    pub bold: bool,
}

/// A run of text drawn in one style.
pub struct Span {
    pub content: String,
    pub style: Style,
}

/// One row of styled text: spans drawn left to right. A row with no spans is
/// blank.
pub struct Line {
    pub spans: Vec<Span>,
}

/// The mathematical value of a [`Span`]: its characters and its style.
#[verifier::ext_equal]
pub struct SpanV {
    pub text: Seq<char>,
    pub style: Style,
}

/// The value of a [`Span`].
pub open spec fn span_view(s: Span) -> SpanV {
    SpanV { text: s.content@, style: s.style }
}

/// The value of a [`Line`]: its spans' values in order.
pub open spec fn line_view(l: Line) -> Seq<SpanV> {
    l.spans@.map_values(|s: Span| span_view(s))
}

/// The value of a sequence of [`Line`]s.
pub open spec fn lines_view(v: Seq<Line>) -> Seq<Seq<SpanV>> {
    v.map_values(|l: Line| line_view(l))
}

/// The style of unstyled text.
pub open spec fn st_plain() -> Style {
    Style { fg: Color::Reset, bg: Color::Reset, bold: false }
}

/// The muted style of secondary text.
pub open spec fn st_dim() -> Style {
    Style { fg: Color::DarkGray, bg: Color::Reset, bold: false }
}

/// The style of an issue number in the list and the preview.
pub open spec fn st_number() -> Style {
    Style { fg: Color::Yellow, bg: Color::Reset, bold: false }
}

// ---------------------------------------------------------------------------
// Small text helpers of the pipeline
// ---------------------------------------------------------------------------

/// `s` cut to at most `max_len` characters, the last one an ellipsis when
/// something was cut.
pub open spec fn spec_truncate(s: Seq<char>, max_len: int) -> Seq<char> {
    if s.len() <= max_len {
        s
    } else {
        s.take(max_len - 1).push('…')
    }
}

/// Cuts `s` to at most `max_len` characters, marking a cut with an ellipsis.
pub fn truncate(s: &str, max_len: usize) -> (r: String)
    requires
        max_len >= 1,
    ensures
        r@ == spec_truncate(s@, max_len as int),
{
    let len = s.unicode_len();
    if len <= max_len {
        String::from_str(s)
    } else {
        let head = s.substring_char(0, max_len - 1);
        let mut r = String::from_str(head);
        push_char(&mut r, '…');
        proof {
            assert(s@.subrange(0, max_len - 1) =~= s@.take(max_len - 1));
        }
        r
    }
}

/// The date portion of a timestamp text: what stands before the first `T`,
/// or all of it when it has none.
pub open spec fn spec_format_date(s: Seq<char>) -> Seq<char> {
    s.take(first_occ(s, 'T'))
}

/// Keeps the date portion of a sortable timestamp text.
pub fn format_date(iso: &str) -> (r: String)
    ensures
        r@ == spec_format_date(iso@),
{
    let i = find_char(iso, 'T');
    proof {
        lemma_first_occ(iso@, 'T');
    }
    let head = iso.substring_char(0, i);
    proof {
        assert(iso@.subrange(0, i as int) =~= iso@.take(i as int));
    }
    String::from_str(head)
}

/// The value of a hex digit as a codepoint, or -1 when the character is no
/// hex digit.
pub open spec fn hex_digit_val(u: u32) -> int {
    if 48 <= u && u <= 57 {
        u - 48
    } else if 97 <= u && u <= 102 {
        u - 87
    } else if 65 <= u && u <= 70 {
        u - 55
    } else {
        -1
    }
}

/// The number of leading `#` characters of `s`.
pub open spec fn lead_hashes(s: Seq<char>) -> int
    decreases s.len(),
{
    if s.len() == 0 {
        0
    } else if s[0] != '#' {
        0
    } else {
        1 + lead_hashes(s.drop_first())
    }
}

pub proof fn lemma_lead_hashes(s: Seq<char>)
    ensures
        0 <= lead_hashes(s) <= s.len(),
        lead_hashes(s) < s.len() ==> s[lead_hashes(s)] != '#',
        forall|k: int| 0 <= k < lead_hashes(s) ==> s[k] == '#',
    decreases s.len(),
{
    if s.len() == 0 {
    } else if s[0] != '#' {
    } else {
        lemma_lead_hashes(s.drop_first());
        assert forall|k: int| 0 <= k < lead_hashes(s) implies s[k] == '#' by {
            if k > 0 {
                assert(s.drop_first()[k - 1] == s[k]);
            }
        }
    }
}

/// The color a label's hex string denotes: leading `#` characters dropped,
/// then exactly six hex digits; anything else denotes no color.
pub open spec fn spec_hex_color(s: Seq<char>) -> Option<Color> {
    let t = s.skip(lead_hashes(s));
    if t.len() != 6 {
        None
    } else if exists|k: int| 0 <= k < 6 && hex_digit_val((#[trigger] t[k]) as u32) < 0 {
        None
    } else {
        Some(
            Color::Rgb(
                (hex_digit_val(t[0] as u32) * 16 + hex_digit_val(t[1] as u32)) as u8,
                (hex_digit_val(t[2] as u32) * 16 + hex_digit_val(t[3] as u32)) as u8,
                (hex_digit_val(t[4] as u32) * 16 + hex_digit_val(t[5] as u32)) as u8,
            ),
        )
    }
}

/// The position right after the leading `#` characters of `s`.
fn skip_hashes(s: &str) -> (r: usize)
    ensures
        r == lead_hashes(s@),
{
    let len = s.unicode_len();
    let mut i: usize = 0;
    while i < len
        invariant
            len == s@.len(),
            i <= len,
            forall|k: int| 0 <= k < i ==> s@[k] == '#',
        decreases len - i,
    {
        if s.get_char(i) != '#' {
            proof {
                lemma_lead_hashes(s@);
            }
            return i;
        }
        i = i + 1;
    }
    proof {
        lemma_lead_hashes(s@);
    }
    len
}

fn hex_val(c: char) -> (r: Option<u8>)
    ensures
        r is Some <==> hex_digit_val(c as u32) >= 0,
        r matches Some(v) ==> v == hex_digit_val(c as u32) && v < 16,
{
    let u = c as u32;
    if 48 <= u && u <= 57 {
        Some((u - 48) as u8)
    } else if 97 <= u && u <= 102 {
        Some((u - 87) as u8)
    } else if 65 <= u && u <= 70 {
        Some((u - 55) as u8)
    } else {
        None
    }
}

/// Parses a label color given as a hex RGB string, tolerating leading `#`
/// characters; None on malformed input.
pub fn parse_hex_color(hex: &str) -> (r: Option<Color>)
    ensures
        r == spec_hex_color(hex@),
{
    let len = hex.unicode_len();
    let start = skip_hashes(hex);
    let ghost t = hex@.skip(lead_hashes(hex@));
    proof {
        lemma_lead_hashes(hex@);
    }
    if len - start != 6 {
        return None;
    }
    let c0 = hex_val(hex.get_char(start));
    let c1 = hex_val(hex.get_char(start + 1));
    let c2 = hex_val(hex.get_char(start + 2));
    let c3 = hex_val(hex.get_char(start + 3));
    let c4 = hex_val(hex.get_char(start + 4));
    let c5 = hex_val(hex.get_char(start + 5));
    proof {
        assert forall|k: int| 0 <= k < 6 implies t[k] == hex@[start + k] by {}
    }
    match (c0, c1, c2, c3, c4, c5) {
        (Some(v0), Some(v1), Some(v2), Some(v3), Some(v4), Some(v5)) => {
            Some(Color::Rgb(v0 * 16 + v1, v2 * 16 + v3, v4 * 16 + v5))
        },
        _ => None,
    }
}

// ---------------------------------------------------------------------------
// Layout
// ---------------------------------------------------------------------------

/// A rectangular region of the terminal surface, in character cells.
#[derive(Clone, Copy, Debug, PartialEq, Eq, Structural)]
pub struct Rect {
    pub x: u16,
    pub y: u16,
    pub width: u16,
    pub height: u16,
}

/// Splits the viewport into a header of up to 3 rows, a help bar of up to 3
/// of the remaining rows, and a body taking the rest.
pub fn layout_vertical(area: Rect) -> (r: (Rect, Rect, Rect))
    requires
        area.y + area.height <= u16::MAX,
    ensures
        r.0 == (Rect { x: area.x, y: area.y, width: area.width, height: if area.height >= 3 { 3u16 } else { area.height } }),
        r.1.x == area.x && r.1.width == area.width,
        r.2.x == area.x && r.2.width == area.width,
        r.0.height + r.1.height + r.2.height == area.height,
        r.2.height == if area.height >= 6 { 3int } else if area.height >= 3 { area.height - 3 } else { 0int },
        r.1.y == area.y + r.0.height,
        r.2.y == area.y + r.0.height + r.1.height,
{
    let header_h = if area.height >= 3 {
        3
    } else {
        area.height
    };
    let rest = area.height - header_h;
    let help_h = if rest >= 3 {
        3
    } else {
        rest
    };
    let body_h = rest - help_h;
    let header = Rect { x: area.x, y: area.y, width: area.width, height: header_h };
    let body = Rect { x: area.x, y: area.y + header_h, width: area.width, height: body_h };
    let help = Rect {
        x: area.x,
        y: area.y + header_h + body_h,
        width: area.width,
        height: help_h,
    };
    (header, body, help)
}

/// Splits the body horizontally: a list pane of 40% of the width and a
/// preview pane taking the rest.
pub fn layout_horizontal(area: Rect) -> (r: (Rect, Rect))
    requires
        area.x + area.width <= u16::MAX,
    ensures
        r.0 == (Rect { x: area.x, y: area.y, width: (area.width as int * 40 / 100) as u16, height: area.height }),
        r.1 == (Rect {
            x: (area.x + area.width as int * 40 / 100) as u16,
            y: area.y,
            width: (area.width - area.width as int * 40 / 100) as u16,
            height: area.height,
        }),
{
    let list_w = (area.width as u32 * 40 / 100) as u16;
    let list = Rect { x: area.x, y: area.y, width: list_w, height: area.height };
    let preview = Rect {
        x: area.x + list_w,
        y: area.y,
        width: area.width - list_w,
        height: area.height,
    };
    (list, preview)
}

// ---------------------------------------------------------------------------
// Header, list pane, preview pane, help bar
// ---------------------------------------------------------------------------

/// The header text: the repository, then the loading notice, the last fetch
/// error, or the count of currently filtered issues.
pub open spec fn spec_header_text(a: App) -> Seq<char> {
    if a.loading {
        " "@ + a.repo@ + " - Loading..."@
    } else {
        match a.error {
            Some(e) => " "@ + a.repo@ + " - Error: "@ + e@,
            None => " "@ + a.repo@ + " ("@ + dec_digits(a.spec_filtered().len() as int)
                + " issues)"@,
        }
    }
}

/// Builds the header text.
pub fn header_text(app: &App) -> (r: String)
    ensures
        r@ == spec_header_text(*app),
{
    let mut r = String::from_str(" ");
    r.append(app.repo.as_str());
    if app.loading {
        r.append(" - Loading...");
    } else {
        match &app.error {
            Some(e) => {
                r.append(" - Error: ");
                r.append(e.as_str());
            },
            None => {
                r.append(" (");
                let count = usize_to_string(app.filtered_issues().len());
                r.append(count.as_str());
                r.append(" issues)");
            },
        }
    }
    proof {
        assert(r@ =~= spec_header_text(*app));
    }
    r
}

/// The title of the list pane, showing the live filter text when one is set.
pub open spec fn spec_list_title(f: Seq<char>) -> Seq<char> {
    if f.len() == 0 {
        " Issues "@
    } else {
        " Issues (filter: "@ + f + ") "@
    }
}

/// Builds the title of the list pane.
pub fn list_title(filter: &str) -> (r: String)
    ensures
        r@ == spec_list_title(filter@),
{
    if filter.is_empty() {
        String::from_str(" Issues ")
    } else {
        let mut r = String::from_str(" Issues (filter: ");
        r.append(filter);
        r.append(") ");
        proof {
            assert(r@ =~= spec_list_title(filter@));
        }
        r
    }
}

/// The emphasis put on the selected list entry.
pub open spec fn sel_style(selected: bool) -> Style {
    if selected {
        Style { fg: Color::Reset, bg: Color::DarkGray, bold: true }
    } else {
        st_plain()
    }
}

/// The style of a label chip: black text on the label's color, the neutral
/// gray when the color string is malformed.
pub open spec fn chip_style(c: Seq<char>) -> Style {
    Style {
        fg: Color::Black,
        bg: match spec_hex_color(c) {
            Some(col) => col,
            None => Color::Gray,
        },
        bold: false,
    }
}

/// The label chips of a list entry: up to three labels, each padded with one
/// space on both sides; a muted marker when the issue has no labels.
pub open spec fn spec_label_chips(labels: Seq<Label>) -> Seq<SpanV> {
    if labels.len() == 0 {
        seq![SpanV { text: "  no labels"@, style: st_dim() }]
    } else {
        Seq::new(
            if labels.len() < 3 {
                labels.len()
            } else {
                3
            },
            |k: int| SpanV { text: " "@ + labels[k].name@ + " "@, style: chip_style(labels[k].color@) },
        )
    }
}

/// A list entry: the number and the truncated title, the label chips, and a
/// blank separator row. The selected entry carries background emphasis.
pub open spec fn spec_list_entry(i: Issue, selected: bool) -> Seq<Seq<SpanV>> {
    seq![
        seq![
            SpanV { text: "#"@ + dec_digits(i.number as int) + " "@, style: st_number() },
            SpanV { text: spec_truncate(i.title@, 35), style: sel_style(selected) },
        ],
        spec_label_chips(i.labels@),
        Seq::empty(),
    ]
}

/// One entry of the list pane.
pub struct ListEntry {
    pub lines: Vec<Line>,
    pub selected: bool,
}

/// Builds one list entry for `issue`.
pub fn issue_list_entry(issue: &Issue, selected: bool) -> (e: ListEntry)
    ensures
        lines_view(e.lines@) == spec_list_entry(*issue, selected),
        e.selected == selected,
{
    let mut num = String::from_str("#");
    let n = u64_to_string(issue.number);
    num.append(n.as_str());
    num.append(" ");
    let title = truncate(issue.title.as_str(), 35);
    let title_style = if selected {
        Style { fg: Color::Reset, bg: Color::DarkGray, bold: true }
    } else {
        Style { fg: Color::Reset, bg: Color::Reset, bold: false }
    };
    let mut spans1: Vec<Span> = Vec::new();
    spans1.push(Span { content: num, style: Style { fg: Color::Yellow, bg: Color::Reset, bold: false } });
    spans1.push(Span { content: title, style: title_style });
    let line1 = Line { spans: spans1 };

    let mut chips: Vec<Span> = Vec::new();
    if issue.labels.len() == 0 {
        chips.push(Span { content: String::from_str("  no labels"), style: Style { fg: Color::DarkGray, bg: Color::Reset, bold: false } });
    } else {
        let m = if issue.labels.len() < 3 {
            issue.labels.len()
        } else {
            3
        };
        let mut k: usize = 0;
        while k < m
            invariant
                m <= issue.labels@.len(),
                k <= m,
                chips@.len() == k,
                forall|j: int|
                    0 <= j < k ==> span_view(#[trigger] chips@[j]) == (SpanV {
                        text: " "@ + issue.labels@[j].name@ + " "@,
                        style: chip_style(issue.labels@[j].color@),
                    }),
            decreases m - k,
        {
            let label = &issue.labels[k];
            let bg = match parse_hex_color(label.color.as_str()) {
                Some(c) => c,
                None => Color::Gray,
            };
            let mut text = String::from_str(" ");
            text.append(label.name.as_str());
            text.append(" ");
            chips.push(Span { content: text, style: Style { fg: Color::Black, bg, bold: false } });
            k = k + 1;
        }
    }
    let line2 = Line { spans: chips };
    let line3 = Line { spans: Vec::new() };

    let mut lines: Vec<Line> = Vec::new();
    lines.push(line1);
    lines.push(line2);
    lines.push(line3);
    proof {
        assert(line_view(lines@[1]) =~= spec_label_chips(issue.labels@));
        assert(lines_view(lines@) =~~= spec_list_entry(*issue, selected));
    }
    ListEntry { lines, selected }
}

/// Builds the whole list pane: one entry per issue of the filtered view, in
/// order, exactly the entry at the selection emphasized.
pub fn issue_list(app: &App) -> (entries: Vec<ListEntry>)
    ensures
        entries@.len() == app.spec_filtered().len(),
        forall|k: int|
            0 <= k < entries@.len() ==> lines_view((#[trigger] entries@[k]).lines@)
                == spec_list_entry(
                app.issues@[app.spec_filtered()[k]],
                k == app.selected as int,
            ) && entries@[k].selected == (k == app.selected as int),
{
    let f = app.filtered_issues();
    proof {
        lemma_filtered_view(app.issues@, app.filter@);
    }
    let mut entries: Vec<ListEntry> = Vec::new();
    let mut k: usize = 0;
    while k < f.len()
        invariant
            f@.map_values(|u: usize| u as int) == app.spec_filtered(),
            forall|j: int|
                0 <= j < f@.len() ==> 0 <= #[trigger] app.spec_filtered()[j]
                    < app.issues@.len(),
            k <= f@.len(),
            entries@.len() == k,
            forall|j: int|
                0 <= j < k ==> lines_view((#[trigger] entries@[j]).lines@) == spec_list_entry(
                    app.issues@[app.spec_filtered()[j]],
                    j == app.selected as int,
                ) && entries@[j].selected == (j == app.selected as int),
        decreases f@.len() - k,
    {
        let idx = f[k];
        proof {
            assert(f@.map_values(|u: usize| u as int)[k as int] == app.spec_filtered()[k as int]);
            assert(idx as int == app.spec_filtered()[k as int]);
        }
        let e = issue_list_entry(&app.issues[idx], k == app.selected);
        entries.push(e);
        k = k + 1;
    }
    entries
}

/// Appends one row made of the given spans, recording what it shows.
fn push_line(v: &mut Vec<Line>, spans: Vec<Span>)
    ensures
        final(v)@.len() == old(v)@.len() + 1,
        lines_view(final(v)@) == lines_view(old(v)@).push(
            spans@.map_values(|s: Span| span_view(s)),
        ),
{
    v.push(Line { spans });
    proof {
        assert(lines_view(v@) =~~= lines_view(old(v)@).push(
            spans@.map_values(|s: Span| span_view(s)),
        ));
    }
}

/// Appends one blank row.
fn push_blank_line(v: &mut Vec<Line>)
    ensures
        final(v)@.len() == old(v)@.len() + 1,
        lines_view(final(v)@) == lines_view(old(v)@).push(Seq::empty()),
{
    let spans: Vec<Span> = Vec::new();
    push_line(v, spans);
    proof {
        assert(Seq::<Span>::empty().map_values(|s: Span| span_view(s)) =~= Seq::<SpanV>::empty());
    }
}

/// Appends one row holding a single run of text, recording what it shows.
fn push_text_line(v: &mut Vec<Line>, text: String, style: Style)
    ensures
        final(v)@.len() == old(v)@.len() + 1,
        lines_view(final(v)@) == lines_view(old(v)@).push(seq![SpanV { text: text@, style }]),
{
    let mut spans: Vec<Span> = Vec::new();
    spans.push(Span { content: text, style });
    proof {
        assert(spans@.map_values(|s: Span| span_view(s)) =~= seq![SpanV { text: text@, style }]);
    }
    push_line(v, spans);
}

/// The divider row of the preview pane.
pub open spec fn divider_chars() -> Seq<char> {
    "────────────────────────────────────────"@
}

fn divider_str() -> (r: &'static str)
    ensures
        r@ == divider_chars(),
{
    "────────────────────────────────────────"
}

/// The body region of the preview: the first 20 lines of the body with a
/// truncation marker when more follow, or a muted placeholder when the issue
/// has no body.
pub open spec fn spec_body_region(body: Option<String>) -> Seq<Seq<SpanV>> {
    match body {
        None => seq![seq![SpanV { text: "No description"@, style: st_dim() }]],
        Some(b) => Seq::new(
            if spec_lines(b@).len() < 20 {
                spec_lines(b@).len()
            } else {
                20
            },
            |k: int| seq![SpanV { text: spec_lines(b@)[k], style: st_plain() }],
        ) + if spec_lines(b@).len() > 20 {
            seq![seq![SpanV { text: "... (truncated)"@, style: st_dim() }]]
        } else {
            Seq::empty()
        },
    }
}

/// The trailing comment note of the preview: a blank row, a divider and the
/// comment count; nothing when the issue has no comments.
pub open spec fn spec_comments_region(n: int) -> Seq<Seq<SpanV>> {
    if n > 0 {
        seq![
            Seq::empty(),
            seq![SpanV { text: divider_chars(), style: st_dim() }],
            seq![
                SpanV {
                    text: " "@ + dec_digits(n) + " comments"@,
                    style: Style { fg: Color::Cyan, bg: Color::Reset, bold: false },
                },
            ],
        ]
    } else {
        Seq::empty()
    }
}

/// The preview pane of one issue: number and title, author and date, the
/// labels when any, a divider, the body region, and the comment note.
pub open spec fn spec_preview(i: Issue) -> Seq<Seq<SpanV>> {
    seq![
        seq![
            SpanV {
                text: "#"@ + dec_digits(i.number as int) + " "@,
                style: Style { fg: Color::Yellow, bg: Color::Reset, bold: true },
            },
            SpanV { text: i.title@, style: Style { fg: Color::Reset, bg: Color::Reset, bold: true } },
        ],
        Seq::empty(),
        seq![
            SpanV { text: "Author: "@, style: st_dim() },
            SpanV { text: i.author.login@, style: st_plain() },
            SpanV { text: "  Created: "@, style: st_dim() },
            SpanV { text: spec_format_date(i.created_at@), style: st_plain() },
        ],
    ] + (if i.labels@.len() > 0 {
        seq![
            seq![
                SpanV { text: "Labels: "@, style: st_dim() },
                SpanV { text: label_names_chars(i.labels@), style: st_plain() },
            ],
        ]
    } else {
        Seq::empty()
    }) + seq![
        Seq::empty(),
        seq![SpanV { text: divider_chars(), style: st_dim() }],
        Seq::empty(),
    ] + spec_body_region(i.body) + spec_comments_region(i.comments@.len() as int)
}

/// Builds the preview pane for `issue`.
pub fn issue_preview(issue: &Issue) -> (r: Vec<Line>)
    ensures
        lines_view(r@) == spec_preview(*issue),
{
    let mut r: Vec<Line> = Vec::new();

    let mut num = String::from_str("#");
    let n = u64_to_string(issue.number);
    num.append(n.as_str());
    num.append(" ");
    let mut spans1: Vec<Span> = Vec::new();
    spans1.push(Span { content: num, style: Style { fg: Color::Yellow, bg: Color::Reset, bold: true } });
    spans1.push(Span {
        content: issue.title.clone(),
        style: Style { fg: Color::Reset, bg: Color::Reset, bold: true },
    });
    push_line(&mut r, spans1);
    push_blank_line(&mut r);

    let mut spans3: Vec<Span> = Vec::new();
    spans3.push(Span { content: String::from_str("Author: "), style: Style { fg: Color::DarkGray, bg: Color::Reset, bold: false } });
    spans3.push(Span { content: issue.author.login.clone(), style: Style { fg: Color::Reset, bg: Color::Reset, bold: false } });
    spans3.push(Span { content: String::from_str("  Created: "), style: Style { fg: Color::DarkGray, bg: Color::Reset, bold: false } });
    spans3.push(Span { content: format_date(issue.created_at.as_str()), style: Style { fg: Color::Reset, bg: Color::Reset, bold: false } });
    push_line(&mut r, spans3);

    let ghost head = seq![
        seq![
            SpanV {
                text: "#"@ + dec_digits(issue.number as int) + " "@,
                style: Style { fg: Color::Yellow, bg: Color::Reset, bold: true },
            },
            SpanV { text: issue.title@, style: Style { fg: Color::Reset, bg: Color::Reset, bold: true } },
        ],
        Seq::<SpanV>::empty(),
        seq![
            SpanV { text: "Author: "@, style: st_dim() },
            SpanV { text: issue.author.login@, style: st_plain() },
            SpanV { text: "  Created: "@, style: st_dim() },
            SpanV { text: spec_format_date(issue.created_at@), style: st_plain() },
        ],
    ];
    proof {
        assert(lines_view(r@) =~~= head);
    }

    if issue.labels.len() > 0 {
        let mut spans4: Vec<Span> = Vec::new();
        spans4.push(Span { content: String::from_str("Labels: "), style: Style { fg: Color::DarkGray, bg: Color::Reset, bold: false } });
        let names = join_label_names(&issue.labels);
        spans4.push(Span { content: names, style: Style { fg: Color::Reset, bg: Color::Reset, bold: false } });
        push_line(&mut r, spans4);
    }
    let ghost with_labels = head + (if issue.labels@.len() > 0 {
        seq![
            seq![
                SpanV { text: "Labels: "@, style: st_dim() },
                SpanV { text: label_names_chars(issue.labels@), style: st_plain() },
            ],
        ]
    } else {
        Seq::<Seq<SpanV>>::empty()
    });
    proof {
        assert(lines_view(r@) =~~= with_labels);
    }

    push_blank_line(&mut r);
    push_text_line(&mut r, String::from_str(divider_str()), Style { fg: Color::DarkGray, bg: Color::Reset, bold: false });
    push_blank_line(&mut r);
    let ghost with_divider = with_labels + seq![
        Seq::<SpanV>::empty(),
        seq![SpanV { text: divider_chars(), style: st_dim() }],
        Seq::<SpanV>::empty(),
    ];
    proof {
        assert(lines_view(r@) =~~= with_divider);
    }

    match &issue.body {
        Some(body) => {
            let pieces = split_lines(body.as_str());
            let shown = if pieces.len() < 20 {
                pieces.len()
            } else {
                20
            };
            let mut k: usize = 0;
            while k < shown
                invariant
                    pieces@.map_values(|p: String| p@) == spec_lines(body@),
                    shown <= pieces@.len(),
                    k <= shown,
                    shown == if spec_lines(body@).len() < 20 {
                        spec_lines(body@).len() as int
                    } else {
                        20int
                    },
                    r@.len() == with_divider.len() + k,
                    lines_view(r@) == with_divider + Seq::new(
                        k as nat,
                        |j: int| seq![SpanV { text: spec_lines(body@)[j], style: st_plain() }],
                    ),
                decreases shown - k,
            {
                push_text_line(&mut r, pieces[k].clone(), Style { fg: Color::Reset, bg: Color::Reset, bold: false });
                proof {
                    assert(pieces@.map_values(|p: String| p@)[k as int] == spec_lines(
                        body@,
                    )[k as int]);
                    assert(pieces@[k as int]@ == spec_lines(body@)[k as int]);
                    assert(lines_view(r@) =~~= with_divider + Seq::new(
                        (k + 1) as nat,
                        |j: int| seq![SpanV { text: spec_lines(body@)[j], style: st_plain() }],
                    ));
                }
                k = k + 1;
            }
            if pieces.len() > 20 {
                push_text_line(&mut r, String::from_str("... (truncated)"), Style { fg: Color::DarkGray, bg: Color::Reset, bold: false });
            }
        },
        None => {
            push_text_line(&mut r, String::from_str("No description"), Style { fg: Color::DarkGray, bg: Color::Reset, bold: false });
        },
    }
    let ghost with_body = with_divider + spec_body_region(issue.body);
    proof {
        assert(lines_view(r@) =~~= with_body);
    }

    if issue.comments.len() > 0 {
        push_blank_line(&mut r);
        push_text_line(&mut r, String::from_str(divider_str()), Style { fg: Color::DarkGray, bg: Color::Reset, bold: false });
        let mut note = String::from_str(" ");
        let count = usize_to_string(issue.comments.len());
        note.append(count.as_str());
        note.append(" comments");
        push_text_line(&mut r, note, Style { fg: Color::Cyan, bg: Color::Reset, bold: false });
    }
    proof {
        assert(lines_view(r@) =~~= spec_preview(*issue));
    }
    r
}

/// The help line of each input mode.
pub open spec fn spec_help_text(m: InputMode) -> Seq<char> {
    match m {
        InputMode::Normal => " j/↓: down  k/↑: up  Enter: open in browser  /: filter  Esc: clear filter  r: refresh  q: quit "@,
        InputMode::Filter => " Type to filter  Enter/Esc: done  Backspace: delete "@,
    }
}

/// The static key-binding legend shown below the panes.
pub fn help_text(mode: InputMode) -> (r: &'static str)
    ensures
        r@ == spec_help_text(mode),
{
    match mode {
        InputMode::Normal => " j/↓: down  k/↑: up  Enter: open in browser  /: filter  Esc: clear filter  r: refresh  q: quit ",
        InputMode::Filter => " Type to filter  Enter/Esc: done  Backspace: delete ",
    }
}

// ---------------------------------------------------------------------------
// The whole frame
// ---------------------------------------------------------------------------

/// Everything one frame shows, with the region geometry: the caller paints
/// it onto the terminal without further decisions.
pub struct Screen {
    pub header_area: Rect,
    pub list_area: Rect,
    pub preview_area: Rect,
    pub help_area: Rect,
    pub header: String,
    pub list_title: String,
    pub entries: Vec<ListEntry>,
    pub preview: Vec<Line>,
    pub help: String,
}

/// Renders one frame: a deterministic, side-effect-free function of the
/// state and the viewport size, so two calls on the same state and geometry
/// give the same frame.
pub fn render(app: &App, width: u16, height: u16) -> (s: Screen)
    ensures
        s.header@ == spec_header_text(*app),
        s.list_title@ == spec_list_title(app.filter@),
        s.help@ == spec_help_text(app.input_mode),
        s.entries@.len() == app.spec_filtered().len(),
        forall|k: int|
            0 <= k < s.entries@.len() ==> lines_view((#[trigger] s.entries@[k]).lines@)
                == spec_list_entry(
                app.issues@[app.spec_filtered()[k]],
                k == app.selected as int,
            ) && s.entries@[k].selected == (k == app.selected as int),
        (app.selected as int) < app.spec_filtered().len() ==> lines_view(s.preview@)
            == spec_preview(app.issues@[app.spec_filtered()[app.selected as int]]),
        (app.selected as int) >= app.spec_filtered().len() ==> lines_view(s.preview@) == seq![
            seq![SpanV { text: "No issue selected"@, style: st_plain() }],
        ],
        s.header_area == (Rect {
            x: 0u16,
            y: 0u16,
            width,
            height: if height >= 3 { 3u16 } else { height },
        }),
        s.list_area.x == 0 && s.preview_area.y == s.list_area.y && s.list_area.y
            == s.header_area.height,
        s.list_area.width == width as int * 40 / 100 && s.preview_area.x == s.list_area.width
            && s.preview_area.width == width - s.list_area.width,
        s.list_area.height == s.preview_area.height,
        s.header_area.height + s.list_area.height + s.help_area.height == height,
        s.help_area == (Rect {
            x: 0u16,
            y: (s.header_area.height + s.list_area.height) as u16,
            width,
            height: (if height >= 6 { 3int } else if height >= 3 { height - 3 } else { 0int }) as u16,
        }),
{
    let area = Rect { x: 0, y: 0, width, height };
    let (header_area, body_area, help_area) = layout_vertical(area);
    let (list_area, preview_area) = layout_horizontal(body_area);
    let header = header_text(app);
    let title = list_title(app.filter.as_str());
    let entries = issue_list(app);
    let preview = match app.selected_issue() {
        Some(issue) => issue_preview(issue),
        None => {
            let mut spans: Vec<Span> = Vec::new();
            spans.push(Span { content: String::from_str("No issue selected"), style: Style { fg: Color::Reset, bg: Color::Reset, bold: false } });
            let mut v: Vec<Line> = Vec::new();
            v.push(Line { spans });
            proof {
                assert(lines_view(v@) =~~= seq![
                    seq![SpanV { text: "No issue selected"@, style: st_plain() }],
                ]);
            }
            v
        },
    };
    let help = String::from_str(help_text(app.input_mode));
    Screen {
        header_area,
        list_area,
        preview_area,
        help_area,
        header,
        list_title: title,
        entries,
        preview,
        help,
    }
}

} // verus!

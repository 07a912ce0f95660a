//! Building the text git-x prints: buffered lines, styled messages, tables
//! and progress counters.
use vstd::prelude::*;
use crate::base::text::{decimal, join, join_of, lemma_join_push, owned, repeat, repeat_of};
use crate::base::validation::byte_len;

verus! {

/// Buffered output utility for better performance
pub struct BufferedOutput {
    lines: Vec<String>,
}

impl View for BufferedOutput {
    type V = Seq<Seq<char>>;

    closed spec fn view(&self) -> Seq<Seq<char>> {
        self.lines.deep_view()
    }
}

impl BufferedOutput {
    /// Create a new buffered output
    pub fn new() -> (r: Self)
        ensures
            r@ == Seq::<Seq<char>>::empty(),
    {
        let r = Self { lines: Vec::new() };
        assert(r@ =~= Seq::<Seq<char>>::empty());
        r
    }

    /// Add a line to the buffer
    pub fn add_line(&mut self, line: String)
        ensures
            final(self)@ == old(self)@.push(line@),
    {
        let ghost before = self@;
        self.lines.push(line);
        assert(self@ =~= before.push(line@));
    }

    /// Add multiple lines to the buffer
    pub fn add_lines(&mut self, lines: Vec<String>)
        ensures
            final(self)@ == old(self)@ + lines.deep_view(),
    {
        let ghost before = self@;
        let mut more = lines;
        let ghost added = more.deep_view();
        self.lines.append(&mut more);
        assert(self@ =~= before + added);
    }

    /// Add a formatted line to the buffer
    pub fn add_formatted(&mut self, line: String)
        ensures
            final(self)@ == old(self)@.push(line@),
    {
        self.add_line(line);
    }

    /// Get all buffered content as a single string
    pub fn content(&self) -> (r: String)
        ensures
            r@ == join(self@, "\n"@),
    {
        join_of(&self.lines, "\n")
    }

    /// Get the number of buffered lines
    pub fn len(&self) -> (r: usize)
        ensures
            r == self@.len(),
    {
        self.lines.len()
    }

    /// Check if buffer is empty
    pub fn is_empty(&self) -> (r: bool)
        ensures
            r == (self@.len() == 0),
    {
        self.lines.len() == 0
    }
}

impl Default for BufferedOutput {
    fn default() -> (r: Self)
        ensures
            r@ == Seq::<Seq<char>>::empty(),
    {
        Self::new()
    }
}

/// The two renderings of `t` in bold: plain when the terminal takes no
/// styling, else wrapped in the bold and reset escape sequences.
pub open spec fn is_bold_of(r: Seq<char>, t: Seq<char>) -> bool {
    r == t || r == "\u{1b}[1m"@ + t + "\u{1b}[0m"@
}

/// The two renderings of `t` in bold yellow.
pub open spec fn is_bold_yellow_of(r: Seq<char>, t: Seq<char>) -> bool {
    r == t || r == "\u{1b}[33m"@ + "\u{1b}[1m"@ + t + "\u{1b}[0m"@
}

/// `console::style(text).bold().to_string()`. Whether styling is applied
/// depends on the terminal and environment; either way the result is one of
/// the two renderings of `is_bold_of`.
#[verifier::external_body]
pub(crate) fn styled_bold(text: &str) -> (r: String)
    ensures
        is_bold_of(r@, text@),
{
    console::style(text).bold().to_string()
}

/// `console::style(text).bold().yellow().to_string()`, one of the two
/// renderings of `is_bold_yellow_of`.
#[verifier::external_body]
fn styled_bold_yellow(text: &str) -> (r: String)
    ensures
        is_bold_yellow_of(r@, text@),
{
    console::style(text).bold().yellow().to_string()
}

/// A terminal foreground colour: the eight basic ones, one of the 256
/// indexed colours, or an RGB colour.
#[derive(Clone, Copy, Debug, PartialEq, Eq, Structural)]
pub enum TermColor {
    Black,
    Red,
    Green,
    Yellow,
    Blue,
    Magenta,
    Cyan,
    White,
    Color256(u8),
    TrueColor(u8, u8, u8),
}

/// The escape sequence that sets the foreground to `c`: `ESC[3<n>m` for the
/// eight basic colours (black 0 to white 7), `ESC[38;5;<n>m` for an indexed
/// colour, `ESC[38;2;<r>;<g>;<b>m` for an RGB colour.
pub open spec fn fg_seq(c: TermColor) -> Seq<char> {
    match c {
        TermColor::Black => "\u{1b}[30m"@,
        TermColor::Red => "\u{1b}[31m"@,
        TermColor::Green => "\u{1b}[32m"@,
        TermColor::Yellow => "\u{1b}[33m"@,
        TermColor::Blue => "\u{1b}[34m"@,
        TermColor::Magenta => "\u{1b}[35m"@,
        TermColor::Cyan => "\u{1b}[36m"@,
        TermColor::White => "\u{1b}[37m"@,
        TermColor::Color256(n) => "\u{1b}[38;5;"@ + decimal(n as nat) + "m"@,
        TermColor::TrueColor(r, g, b) => "\u{1b}[38;2;"@ + decimal(r as nat) + ";"@ + decimal(g as nat) + ";"@
            + decimal(b as nat) + "m"@,
    }
}

/// `console::style(text).fg(color).to_string()`, the colour given as its
/// `console::Color` twin: the text plain, or behind the colour's sequence
/// (`fg_seq`) and followed by the reset sequence.
#[verifier::external_body]
fn styled_colored(text: &str, color: TermColor) -> (r: String)
    ensures
        styled_as(r@, fg_seq(color), text@),
{
    let c = match color {
        TermColor::Black => console::Color::Black,
        TermColor::Red => console::Color::Red,
        TermColor::Green => console::Color::Green,
        TermColor::Yellow => console::Color::Yellow,
        TermColor::Blue => console::Color::Blue,
        TermColor::Magenta => console::Color::Magenta,
        TermColor::Cyan => console::Color::Cyan,
        TermColor::White => console::Color::White,
        TermColor::Color256(n) => console::Color::Color256(n),
        TermColor::TrueColor(r, g, b) => console::Color::TrueColor(r, g, b),
    };
    console::style(text).fg(c).to_string()
}

/// The escape sequence that turns bold on.
pub open spec fn sgr_bold() -> Seq<char> {
    "\u{1b}[1m"@
}

/// The escape sequence that turns dim on.
pub open spec fn sgr_dim() -> Seq<char> {
    "\u{1b}[2m"@
}

/// The escape sequence of the red foreground.
pub open spec fn fg_red() -> Seq<char> {
    "\u{1b}[31m"@
}

/// The escape sequence of the green foreground.
pub open spec fn fg_green() -> Seq<char> {
    "\u{1b}[32m"@
}

/// The escape sequence of the yellow foreground.
pub open spec fn fg_yellow() -> Seq<char> {
    "\u{1b}[33m"@
}

/// The escape sequence of the cyan foreground.
pub open spec fn fg_cyan() -> Seq<char> {
    "\u{1b}[36m"@
}

/// The two renderings of `t` in the style whose escape sequences are
/// `style` (the colour's first, then the attributes'): plain when the
/// terminal takes no styling, else behind `style` and followed by the reset
/// sequence.
pub open spec fn styled_as(r: Seq<char>, style: Seq<char>, t: Seq<char>) -> bool {
    r == t || r == style + t + "\u{1b}[0m"@
}

/// `console::style(text).green().bold()`, rendered: plain, or behind the
/// green and bold sequences.
#[verifier::external_body]
pub(crate) fn styled_green_bold(text: &str) -> (r: String)
    ensures
        styled_as(r@, fg_green() + sgr_bold(), text@),
{
    console::style(text).green().bold().to_string()
}

/// `console::style(text).red().bold()`, rendered: plain, or behind the red
/// and bold sequences.
#[verifier::external_body]
pub(crate) fn styled_red_bold(text: &str) -> (r: String)
    ensures
        styled_as(r@, fg_red() + sgr_bold(), text@),
{
    console::style(text).red().bold().to_string()
}

/// `console::style(text).yellow().bold()`, rendered: plain, or behind the
/// yellow and bold sequences.
#[verifier::external_body]
pub(crate) fn styled_yellow_bold(text: &str) -> (r: String)
    ensures
        styled_as(r@, fg_yellow() + sgr_bold(), text@),
{
    console::style(text).yellow().bold().to_string()
}

/// `console::style(text).green()`, rendered: plain, or behind the green
/// sequence.
#[verifier::external_body]
pub(crate) fn styled_green(text: &str) -> (r: String)
    ensures
        styled_as(r@, fg_green(), text@),
{
    console::style(text).green().to_string()
}

/// `console::style(text).red()`, rendered: plain, or behind the red
/// sequence.
#[verifier::external_body]
pub(crate) fn styled_red(text: &str) -> (r: String)
    ensures
        styled_as(r@, fg_red(), text@),
{
    console::style(text).red().to_string()
}

/// `console::style(text).yellow()`, rendered: plain, or behind the yellow
/// sequence.
#[verifier::external_body]
pub(crate) fn styled_yellow(text: &str) -> (r: String)
    ensures
        styled_as(r@, fg_yellow(), text@),
{
    console::style(text).yellow().to_string()
}

/// `console::style(text).cyan()`, rendered: plain, or behind the cyan
/// sequence.
#[verifier::external_body]
pub(crate) fn styled_cyan(text: &str) -> (r: String)
    ensures
        styled_as(r@, fg_cyan(), text@),
{
    console::style(text).cyan().to_string()
}

/// `console::style(text).dim()`, rendered: plain, or behind the dim
/// sequence.
#[verifier::external_body]
pub(crate) fn styled_dim(text: &str) -> (r: String)
    ensures
        styled_as(r@, sgr_dim(), text@),
{
    console::style(text).dim().to_string()
}

/// Common formatting utilities
pub struct Format;

impl Format {
    /// Format an error message with emoji
    pub fn error(msg: &str) -> (r: String)
        ensures
            exists|b: Seq<char>| is_bold_of(b, "❌"@) && r@ == b + " "@ + msg@,
    {
        let mut r = styled_bold("❌");
        let ghost b = r@;
        r.append(" ");
        r.append(msg);
        r
    }

    /// Format a success message with emoji
    pub fn success(msg: &str) -> (r: String)
        ensures
            exists|b: Seq<char>| is_bold_of(b, "✅"@) && r@ == b + " "@ + msg@,
    {
        let mut r = styled_bold("✅");
        let ghost b = r@;
        r.append(" ");
        r.append(msg);
        r
    }

    /// Format an info message with emoji
    pub fn info(msg: &str) -> (r: String)
        ensures
            exists|b: Seq<char>| is_bold_of(b, "ℹ️"@) && r@ == b + " "@ + msg@,
    {
        let mut r = styled_bold("ℹ️");
        let ghost b = r@;
        r.append(" ");
        r.append(msg);
        r
    }

    /// Format a warning message with emoji
    pub fn warning(msg: &str) -> (r: String)
        ensures
            exists|b: Seq<char>| is_bold_yellow_of(b, "⚠️"@) && r@ == b + " "@ + msg@,
    {
        let mut r = styled_bold_yellow("⚠️");
        let ghost b = r@;
        r.append(" ");
        r.append(msg);
        r
    }

    /// Format text with bold styling
    pub fn bold(text: &str) -> (r: String)
        ensures
            is_bold_of(r@, text@),
    {
        styled_bold(text)
    }

    /// Format text with color: plain, or behind the colour's sequence.
    pub fn colored(text: &str, color: TermColor) -> (r: String)
        ensures
            styled_as(r@, fg_seq(color), text@),
    {
        styled_colored(text, color)
    }
}

// ---------------------------------------------------------------------------
// Tables
// ---------------------------------------------------------------------------

/// The width of column `i` over the header and the first `k` rows: the
/// largest byte length found there (rows without such a cell count as 0).
pub open spec fn width_upto(headers: Seq<Seq<char>>, rows: Seq<Seq<Seq<char>>>, i: int, k: nat) -> nat
    decreases k,
{
    if k == 0 {
        byte_len(headers[i])
    } else {
        let prev = width_upto(headers, rows, i, (k - 1) as nat);
        let cell = if i < rows[k - 1].len() { byte_len(rows[k - 1][i]) } else { 0 };
        if cell > prev { cell } else { prev }
    }
}

/// The width of column `i` (0 beyond the header columns).
pub open spec fn column_width(headers: Seq<Seq<char>>, rows: Seq<Seq<Seq<char>>>, i: int) -> nat {
    if 0 <= i < headers.len() {
        width_upto(headers, rows, i, rows.len())
    } else {
        0
    }
}

/// `cell` left-aligned in a field of `w` characters (`{:<w$}`).
pub open spec fn pad(cell: Seq<char>, w: nat) -> Seq<char> {
    if w > cell.len() {
        cell + repeat(" "@, (w - cell.len()) as nat)
    } else {
        cell
    }
}

/// The first `k` cells of a table line, padded and separated by two spaces.
pub open spec fn table_cells(headers: Seq<Seq<char>>, rows: Seq<Seq<Seq<char>>>, cells: Seq<Seq<char>>, k: nat) -> Seq<char>
    decreases k,
{
    if k == 0 {
        Seq::empty()
    } else {
        table_cells(headers, rows, cells, (k - 1) as nat) + (if k > 1 { "  "@ } else { Seq::empty() })
            + pad(cells[k - 1], column_width(headers, rows, k - 1))
    }
}

/// One table line, ended by a newline.
pub open spec fn table_line(headers: Seq<Seq<char>>, rows: Seq<Seq<Seq<char>>>, cells: Seq<Seq<char>>) -> Seq<char> {
    table_cells(headers, rows, cells, cells.len()) + "\n"@
}

/// The dashes under the first `k` headers.
pub open spec fn table_rule(headers: Seq<Seq<char>>, rows: Seq<Seq<Seq<char>>>, k: nat) -> Seq<char>
    decreases k,
{
    if k == 0 {
        Seq::empty()
    } else {
        table_rule(headers, rows, (k - 1) as nat) + (if k > 1 { "  "@ } else { Seq::empty() })
            + repeat("-"@, column_width(headers, rows, k - 1))
    }
}

/// The lines of the first `k` rows.
pub open spec fn table_rows(headers: Seq<Seq<char>>, rows: Seq<Seq<Seq<char>>>, k: nat) -> Seq<char>
    decreases k,
{
    if k == 0 {
        Seq::empty()
    } else {
        table_rows(headers, rows, (k - 1) as nat) + table_line(headers, rows, rows[k - 1])
    }
}

/// The rendered table.
pub open spec fn table_text(headers: Seq<Seq<char>>, rows: Seq<Seq<Seq<char>>>) -> Seq<char> {
    if rows.len() == 0 {
        "No data to display"@
    } else {
        table_line(headers, rows, headers) + table_rule(headers, rows, headers.len()) + "\n"@
            + table_rows(headers, rows, rows.len())
    }
}

/// Output formatters for different data types
pub struct TableFormatter {
    headers: Vec<String>,
    rows: Vec<Vec<String>>,
}

impl TableFormatter {
    /// The headers, as strings.
    pub closed spec fn headers_view(&self) -> Seq<Seq<char>> {
        self.headers.deep_view()
    }

    /// The rows, as strings.
    pub closed spec fn rows_view(&self) -> Seq<Seq<Seq<char>>> {
        self.rows.deep_view()
    }

    pub fn new(headers: Vec<String>) -> (r: Self)
        ensures
            r.headers_view() == headers.deep_view(),
            r.rows_view() == Seq::<Seq<Seq<char>>>::empty(),
    {
        let r = Self { headers, rows: Vec::new() };
        assert(r.rows_view() =~= Seq::<Seq<Seq<char>>>::empty());
        r
    }

    pub fn add_row(&mut self, row: Vec<String>)
        ensures
            final(self).headers_view() == old(self).headers_view(),
            final(self).rows_view() == old(self).rows_view().push(row.deep_view()),
    {
        let ghost before = self.rows_view();
        self.rows.push(row);
        assert(self.rows_view() =~= before.push(row.deep_view()));
    }

    /// The width of column `i`.
    fn width_of(&self, i: usize) -> (w: usize)
        requires
            i < self.headers.len(),
        ensures
            w as nat == column_width(self.headers_view(), self.rows_view(), i as int),
    {
        let mut w = self.headers[i].as_str().len();
        let mut k: usize = 0;
        while k < self.rows.len()
            invariant
                i < self.headers.len(),
                0 <= k <= self.rows.len(),
                w as nat == width_upto(self.headers_view(), self.rows_view(), i as int, k as nat),
            decreases self.rows.len() - k,
        {
            if i < self.rows[k].len() {
                let c = self.rows[k][i].as_str().len();
                assert(self.rows_view()[k as int][i as int] == self.rows@[k as int]@[i as int]@);
                if c > w {
                    w = c;
                }
            }
            k = k + 1;
        }
        w
    }

    /// The widths of all columns.
    fn widths(&self) -> (ws: Vec<usize>)
        ensures
            ws.len() == self.headers.len(),
            forall|i: int| 0 <= i < ws.len() ==> ws@[i] as nat == column_width(
                self.headers_view(),
                self.rows_view(),
                i,
            ),
    {
        let mut ws: Vec<usize> = Vec::new();
        for i in 0..self.headers.len()
            invariant
                ws.len() == i,
                forall|j: int| 0 <= j < i ==> ws@[j] as nat == column_width(
                    self.headers_view(),
                    self.rows_view(),
                    j,
                ),
        {
            ws.push(self.width_of(i));
        }
        ws
    }

    /// Appends one table line for `cells`.
    fn push_line(&self, out: &mut String, cells: &Vec<String>, ws: &Vec<usize>)
        requires
            ws.len() == self.headers.len(),
            forall|i: int| 0 <= i < ws.len() ==> ws@[i] as nat == column_width(
                self.headers_view(),
                self.rows_view(),
                i,
            ),
        ensures
            final(out)@ == old(out)@ + table_line(self.headers_view(), self.rows_view(), cells.deep_view()),
    {
        let ghost start = out@;
        let ghost cv = cells.deep_view();
        for i in 0..cells.len()
            invariant
                ws.len() == self.headers.len(),
                forall|k: int| 0 <= k < ws.len() ==> ws@[k] as nat == column_width(
                    self.headers_view(),
                    self.rows_view(),
                    k,
                ),
                cv == cells.deep_view(),
                out@ == start + table_cells(self.headers_view(), self.rows_view(), cv, i as nat),
        {
            if i > 0 {
                out.append("  ");
            }
            let w: usize = if i < ws.len() { ws[i] } else { 0 };
            let cell = cells[i].as_str();
            out.append(cell);
            let cl = cell.unicode_len();
            if w > cl {
                let spaces = repeat_of(" ", w - cl);
                out.append(spaces.as_str());
            }
            proof {
                assert(cv[i as int] == cells@[i as int]@);
                assert(w as nat == column_width(self.headers_view(), self.rows_view(), i as int));
            }
        }
        out.append("\n");
    }

    /// The table: headers, a rule of dashes and the rows, each column as
    /// wide as its widest entry in bytes.
    pub fn format(&self) -> (r: String)
        ensures
            r@ == table_text(self.headers_view(), self.rows_view()),
    {
        if self.rows.len() == 0 {
            return owned("No data to display");
        }
        let ws = self.widths();
        let mut output = String::new();
        self.push_line(&mut output, &self.headers, &ws);
        let ghost after_head = output@;
        for i in 0..ws.len()
            invariant
                ws.len() == self.headers.len(),
                forall|k: int| 0 <= k < ws.len() ==> ws@[k] as nat == column_width(
                    self.headers_view(),
                    self.rows_view(),
                    k,
                ),
                output@ == after_head + table_rule(self.headers_view(), self.rows_view(), i as nat),
        {
            if i > 0 {
                output.append("  ");
            }
            let dashes = repeat_of("-", ws[i]);
            output.append(dashes.as_str());
        }
        output.append("\n");
        let ghost after_rule = output@;
        for k in 0..self.rows.len()
            invariant
                ws.len() == self.headers.len(),
                forall|j: int| 0 <= j < ws.len() ==> ws@[j] as nat == column_width(
                    self.headers_view(),
                    self.rows_view(),
                    j,
                ),
                output@ == after_rule + table_rows(self.headers_view(), self.rows_view(), k as nat),
        {
            self.push_line(&mut output, &self.rows[k], &ws);
            assert(self.rows_view()[k as int] == self.rows@[k as int].deep_view());
        }
        output
    }
}

// ---------------------------------------------------------------------------
// Progress
// ---------------------------------------------------------------------------

/// Progress indicator for long-running operations
pub struct ProgressIndicator {
    message: String,
    current: usize,
    total: Option<usize>,
}

impl ProgressIndicator {
    /// The message shown with the progress.
    pub closed spec fn message_view(&self) -> Seq<char> {
        self.message@
    }

    /// The steps done so far.
    pub closed spec fn current_view(&self) -> nat {
        self.current as nat
    }

    /// The number of steps expected, if known.
    pub closed spec fn total_view(&self) -> Option<usize> {
        self.total
    }

    pub fn new(message: String) -> (r: Self)
        ensures
            r.message_view() == message@,
            r.current_view() == 0,
            r.total_view() is None,
    {
        Self { message, current: 0, total: None }
    }

    pub fn with_total(message: String, total: usize) -> (r: Self)
        ensures
            r.message_view() == message@,
            r.current_view() == 0,
            r.total_view() == Some(total),
    {
        Self { message, current: 0, total: Some(total) }
    }

    /// Counts one more step (the caller shows the new state).
    pub fn increment(&mut self)
        requires
            old(self).current_view() < usize::MAX,
        ensures
            final(self).current_view() == old(self).current_view() + 1,
            final(self).message_view() == old(self).message_view(),
            final(self).total_view() == old(self).total_view(),
    {
        self.current = self.current + 1;
    }

    /// Sets the steps done (the caller shows the new state).
    pub fn set_current(&mut self, current: usize)
        ensures
            final(self).current_view() == current,
            final(self).message_view() == old(self).message_view(),
            final(self).total_view() == old(self).total_view(),
    {
        self.current = current;
    }

    /// The message.
    pub fn message(&self) -> (r: &str)
        ensures
            r@ == self.message_view(),
    {
        self.message.as_str()
    }

    /// The steps done so far.
    pub fn current(&self) -> (r: usize)
        ensures
            r == self.current_view(),
    {
        self.current
    }

    /// The number of steps expected, if known.
    pub fn total(&self) -> (r: Option<usize>)
        ensures
            r == self.total_view(),
    {
        self.total
    }

    /// The line printed when the operation is done.
    pub fn finish_text(&self) -> (r: String)
        ensures
            r@ == self.message_view() + " ✅ Done"@,
    {
        let mut r = owned(self.message.as_str());
        r.append(" ✅ Done");
        r
    }
}

/// What one more line does to the printed output: it follows the earlier
/// lines after a line break (or stands alone when it is the first).
pub proof fn law_content_after_add_line(before: Seq<Seq<char>>, line: Seq<char>)
    ensures
        join(before.push(line), "\n"@) == if before.len() == 0 {
            line
        } else {
            join(before, "\n"@) + "\n"@ + line
        },
{
    lemma_join_push(before, line, "\n"@);
}

} // verus!

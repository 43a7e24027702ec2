//! What is shown of a report: one plain line, or the title and rows of a
//! panel. Writing either to a terminal is left to the caller.

use crate::decimal::{decimal, decimal_string};
use crate::report::{Counts, Report};
use vstd::prelude::*;
use vstd::string::StringExecFns;

verus! {

/// How a report is shown. The mode is a setting of the caller; it does not
/// depend on where the text came from.
#[derive(Debug, Clone, Copy, PartialEq, Eq, Structural)]
pub enum Mode {
    /// One line of text on standard output.
    Plain,
    /// A bordered panel that takes the whole terminal for a while.
    Panel,
}

/// The plain line for the counts `c`: characters, words, lines, in this
/// order.
pub open spec fn plain_line(c: Counts) -> Seq<char> {
    "char count : "@ + decimal(c.chars) + ", word_count: "@ + decimal(c.words)
        + ", line_count: "@ + decimal(c.lines)
}

/// The title on the panel's border.
pub open spec fn panel_title() -> Seq<char> {
    "Report"@
}

/// The rows of the panel for the counts `c`, top to bottom.
pub open spec fn panel_rows(c: Counts) -> Seq<Seq<char>> {
    seq![
        "Chars: "@ + decimal(c.chars),
        "Words: "@ + decimal(c.words),
        "Lines: "@ + decimal(c.lines),
    ]
}

/// A label followed by a number.
fn labelled(label: &str, n: usize) -> (s: String)
    ensures
        s@ == label@ + decimal(n as nat),
{
    let mut s = String::from_str(label);
    let digits = decimal_string(n);
    s.append(digits.as_str());
    s
}

/// The plain line for `report`, without a line end.
pub fn format_plain(report: &Report) -> (line: String)
    ensures
        line@ == plain_line(report@),
{
    let mut line = labelled("char count : ", report.char_count());
    let words = labelled(", word_count: ", report.word_count());
    let lines = labelled(", line_count: ", report.line_count());
    line.append(words.as_str());
    line.append(lines.as_str());
    assert(line@ =~= plain_line(report@));
    line
}

/// The content of the panel: a title for the border and the rows inside it.
#[derive(Debug, PartialEq, Eq)]
pub struct PanelText {
    pub title: String,
    pub rows: Vec<String>,
}

impl PanelText {
    /// The title and the rows as plain texts.
    pub open spec fn shows(self, title: Seq<char>, rows: Seq<Seq<char>>) -> bool {
        &&& self.title@ == title
        &&& self.rows@.len() == rows.len()
        &&& forall|i: int| 0 <= i < rows.len() ==> (#[trigger] self.rows@[i])@ == rows[i]
    }
}

/// The panel for `report`.
pub fn format_panel(report: &Report) -> (panel: PanelText)
    ensures
        panel.shows(panel_title(), panel_rows(report@)),
{
    let mut rows: Vec<String> = Vec::new();
    rows.push(labelled("Chars: ", report.char_count()));
    rows.push(labelled("Words: ", report.word_count()));
    rows.push(labelled("Lines: ", report.line_count()));
    PanelText { title: String::from_str("Report"), rows }
}

/// What the caller has to put on the terminal.
#[derive(Debug, PartialEq, Eq)]
pub enum Presentation {
    /// Print this line and a line end.
    Line(String),
    /// Show this panel for the dwell time, then give the terminal back.
    Panel(PanelText),
}

/// Shows `report` in the given mode.
pub fn present(report: &Report, mode: Mode) -> (shown: Presentation)
    ensures
        mode == Mode::Plain ==> (shown matches Presentation::Line(line) && line@ == plain_line(
            report@,
        )),
        mode == Mode::Panel ==> (shown matches Presentation::Panel(panel) && panel.shows(
            panel_title(),
            panel_rows(report@),
        )),
{
    match mode {
        Mode::Plain => Presentation::Line(format_plain(report)),
        Mode::Panel => Presentation::Panel(format_panel(report)),
    }
}

} // verus!

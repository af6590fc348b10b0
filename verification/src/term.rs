//! The terminal surface the bar draws through: the output-sink and
//! resize-signal interfaces, the crossterm-backed resize signal, and the
//! control sequences of one redraw frame.
use vstd::prelude::*;

use crate::render::{clear_line_seq, frame_seq, move_col_seq};

verus! {

#[verifier::external_type_specification]
#[verifier::external_body]
pub struct ExIoError(std::io::Error);

/// An exclusively held output sink for redraw frames: standard output in a
/// program, a byte recorder in a test. The bar is its sole writer for the
/// bar's lifetime.
pub trait Target {
    fn write_text(&mut self, s: &str) -> Result<(), std::io::Error>;

    fn flush(&mut self) -> Result<(), std::io::Error>;
}

/// A source of terminal resize notifications, polled without blocking: a
/// pending event's new (columns, rows), if one is queued.
pub trait EventSource {
    fn poll_resize(&mut self) -> Option<(u16, u16)>;
}

/// Relies on crossterm::terminal::size: the current terminal's
/// (columns, rows), or the underlying I/O error.
#[verifier::external_body]
pub(crate) fn query_size() -> (r: Result<(u16, u16), crossterm::ErrorKind>) {
    crossterm::terminal::size()
}

/// Relies on crossterm::event::poll: whether a terminal event is already
/// queued; the zero timeout makes this a non-blocking check. A poll failure
/// counts as no pending event.
#[verifier::external_body]
fn event_pending() -> (r: bool) {
    matches!(crossterm::event::poll(std::time::Duration::from_secs(0)), Ok(true))
}

/// Relies on crossterm::event::read: the queued event, of which only a
/// resize event's new (columns, rows) are kept. A read failure counts as no
/// resize.
#[verifier::external_body]
fn read_resize() -> (r: Option<(u16, u16)>) {
    match crossterm::event::read() {
        Ok(crossterm::event::Event::Resize(columns, rows)) => Some((columns, rows)),
        _ => None,
    }
}

/// The terminal's own resize signal, as crossterm reports it.
pub struct TermEvents;

impl EventSource for TermEvents {
    fn poll_resize(&mut self) -> Option<(u16, u16)> {
        if event_pending() {
            read_resize()
        } else {
            None
        }
    }
}

/// Relies on crossterm::cursor::MoveToColumn's write_ansi: the escape
/// sequence `ESC [ {col+1} G` (the terminal numbers columns from one).
#[verifier::external_body]
pub(crate) fn move_col_text(col: u16) -> (r: String)
    requires
        col < 0xFFFF,
    ensures
        r@ == move_col_seq(col as nat),
{
    let mut s = String::new();
    let _ = crossterm::Command::write_ansi(&crossterm::cursor::MoveToColumn(col), &mut s);
    s
}

/// Relies on crossterm::terminal::Clear's write_ansi: the escape sequence
/// `ESC [ 2 K`, which clears the current line.
#[verifier::external_body]
pub(crate) fn clear_line_text() -> (r: String)
    ensures
        r@ == clear_line_seq(),
{
    let mut s = String::new();
    let _ = crossterm::Command::write_ansi(
        &crossterm::terminal::Clear(crossterm::terminal::ClearType::CurrentLine),
        &mut s,
    );
    s
}

/// Builds one redraw frame from the newline flag and the rendered line.
pub fn frame_text(emit_newline: bool, line: &str) -> (r: String)
    ensures
        r@ == frame_seq(emit_newline, line@),
{
    proof {
        reveal_strlit("\n");
    }
    let mut s = String::new();
    if emit_newline {
        s.append("\n");
    }
    let m = move_col_text(0);
    s.append(m.as_str());
    let c = clear_line_text();
    s.append(c.as_str());
    s.append(line);
    proof {
        assert(s@ =~= frame_seq(emit_newline, line@));
    }
    s
}

} // verus!

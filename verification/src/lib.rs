//! A terminal progress bar: a single line, redrawn in place, showing a
//! bracketed fill for the completed fraction and a trailing status column.
//!
//! A `BarBuilder` accumulates the configuration (total, widths, status
//! column) and yields a `Bar` bound to an output sink; the bar's `update`
//! operations validate the new count, react to terminal resize events and
//! rewrite the current line through the sink.
use vstd::prelude::*;

mod bar;
mod builder;
pub mod digits;
pub mod render;
mod term;

pub use bar::Bar;
pub use builder::BarBuilder;
pub use term::{EventSource, Target, TermEvents};

verus! {

/// What an operation on a bar can fail with.
#[non_exhaustive]
#[derive(Debug)]
pub enum Error {
    /// The terminal width query failed; holds the underlying error.
    Crossterm(crossterm::ErrorKind),
    /// The builder was finalized without the named required field.
    MissingField(&'static str),
    /// An update asked for a count past the total; holds the refused count.
    Overflow(u64),
    /// The output sink failed; holds the underlying error.
    Io(std::io::Error),
}

impl From<std::io::Error> for Error {
    fn from(error: std::io::Error) -> (r: Error) {
        Error::Io(error)
    }
}

impl vstd::std_specs::convert::FromSpecImpl<std::io::Error> for Error {
    open spec fn obeys_from_spec() -> bool {
        true
    }

    open spec fn from_spec(error: std::io::Error) -> Error {
        Error::Io(error)
    }
}

/// A builder preset for a percentage readout: the status column is four
/// characters wide and its formatter renders the truncating integer percent
/// of the count out of the total, as in `50%`; the formatter's own contract
/// and `percent_text` state that rendering exactly.
///
/// This function carries no `ensures`: Verus currently crashes on any
/// contract over this opaque closure-typed return. Verified callers
/// therefore cannot discharge `build`'s preconditions from this value and
/// should configure `BarBuilder::status` themselves; the preset is for
/// unverified callers.
pub fn percent_bar(total: u64) -> BarBuilder<impl Fn(u64, u64) -> String> {
    let fmt = |count: u64, total: u64| -> (res: String)
        requires
            count <= total && 0 < total,
        ensures
            res@ == crate::digits::percent_seq(count as nat, total as nat),
        {
            crate::digits::percent_text(count, total)
        };
    BarBuilder::new(total).status(4, fmt)
}

} // verus!

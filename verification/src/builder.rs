//! The configuration builder: accumulates the optional settings and the
//! total, validates the required fields at finalization and yields a bar
//! bound to an output sink, already rendered once at zero progress.
use vstd::prelude::*;

use crate::bar::Bar;
use crate::render::{after_update, BarView};
use crate::term::{query_size, EventSource, Target, TermEvents};
use crate::Error;

verus! {

/// The transient configuration of a bar: the unit total, the optional
/// explicit and maximum widths, and the status column (its width and the
/// formatter producing its text).
pub struct BarBuilder<F: Fn(u64, u64) -> String> {
    total: u64,
    width: Option<u64>,
    max_width: Option<u64>,
    status_width: Option<u64>,
    status_fmt: Option<F>,
}

impl<F: Fn(u64, u64) -> String> BarBuilder<F> {
    /// The configured total.
    pub closed spec fn total_spec(&self) -> u64 {
        self.total
    }

    /// The explicit width override, if one was set.
    pub closed spec fn width_spec(&self) -> Option<u64> {
        self.width
    }

    /// The width cap, if one was set.
    pub closed spec fn max_width_spec(&self) -> Option<u64> {
        self.max_width
    }

    /// The status column width, if the status was set.
    pub closed spec fn status_width_spec(&self) -> Option<u64> {
        self.status_width
    }

    /// The status formatter, if the status was set.
    pub closed spec fn fmt_spec(&self) -> Option<F> {
        self.status_fmt
    }

    /// Whether the configured formatter accepts every (count, total) pair
    /// the bar can hand it: every count up to the configured total.
    pub open spec fn fmt_accepts_all(&self) -> bool {
        self.fmt_spec() matches Some(f) ==> forall|c: u64|
            c <= self.total_spec() ==> #[trigger] call_requires(f, (c, self.total_spec()))
    }

    /// The abstract bar state that finalization assembles before the first
    /// render, once the width has resolved to `w`: the cap defaults to `w`,
    /// the count starts at zero. (The status-column width is only meaningful
    /// where it was set; finalization refuses the configuration otherwise.)
    pub open spec fn assembled_view(&self, w: u64) -> BarView {
        BarView {
            total: self.total_spec() as nat,
            width: w as nat,
            max_width: (match self.max_width_spec() {
                Some(m) => m,
                None => w,
            }) as nat,
            status_width: (match self.status_width_spec() {
                Some(s) => s,
                None => 0u64,
            }) as nat,
            count: 0,
        }
    }

    /// Starts a configuration for a bar counting up to `total`, with every
    /// other field unset.
    pub fn new(total: u64) -> (r: Self)
        ensures
            r.total_spec() == total,
            r.width_spec() is None,
            r.max_width_spec() is None,
            r.status_width_spec() is None,
            r.fmt_spec() is None,
    {
        BarBuilder { total, width: None, max_width: None, status_width: None, status_fmt: None }
    }

    /// Overrides the auto-detected terminal width.
    pub fn width(self, width: u64) -> (r: Self)
        ensures
            r.total_spec() == self.total_spec(),
            r.width_spec() == Some(width),
            r.max_width_spec() == self.max_width_spec(),
            r.status_width_spec() == self.status_width_spec(),
            r.fmt_spec() == self.fmt_spec(),
    {
        let mut builder = self;
        builder.width = Some(width);
        builder
    }

    /// Caps the rendered width, whatever the terminal width is.
    pub fn max_width(self, width: u64) -> (r: Self)
        ensures
            r.total_spec() == self.total_spec(),
            r.width_spec() == self.width_spec(),
            r.max_width_spec() == Some(width),
            r.status_width_spec() == self.status_width_spec(),
            r.fmt_spec() == self.fmt_spec(),
    {
        let mut builder = self;
        builder.max_width = Some(width);
        builder
    }

    /// Reserves `width` trailing columns for the status text and sets the
    /// formatter that produces it from (count, total).
    pub fn status(self, width: u64, fmt: F) -> (r: Self)
        ensures
            r.total_spec() == self.total_spec(),
            r.width_spec() == self.width_spec(),
            r.max_width_spec() == self.max_width_spec(),
            r.status_width_spec() == Some(width),
            r.fmt_spec() == Some(fmt),
    {
        let mut builder = self;
        builder.status_width = Some(width);
        builder.status_fmt = Some(fmt);
        builder
    }

    /// Finalizes against the given output sink and resize signal.
    ///
    /// An unset width is resolved by querying the terminal (a query failure
    /// is returned as `Error::Crossterm`); an unset cap defaults to the
    /// resolved width. A missing status column or formatter is refused with
    /// `Error::MissingField` naming the field, the width checked first. On
    /// success the bar has rendered once at zero progress; that first
    /// redraw's sink failure is returned as `Error::Io`.
    pub fn build_with<T: Target, E: EventSource>(self, target: T, events: E) -> (r: Result<
        Bar<T, E, F>,
        Error,
    >)
        requires
            self.total_spec() > 0,
            self.fmt_accepts_all(),
        ensures
            r matches Ok(bar) ==> bar.wf() && bar.total_val() == self.total_spec()
                && bar@.count == 0 && Some(bar@.status_width as u64)
                == self.status_width_spec() && Some(bar.fmt_spec()) == self.fmt_spec() && (
            self.max_width_spec() matches Some(m) ==> bar@.max_width == m as nat) && (
            self.width_spec() matches Some(w) ==> (self.max_width_spec() is None
                ==> bar@.max_width == w as nat)) && (self.width_spec() matches Some(w)
                ==> exists|ev: Option<(u16, u16)>|
                bar@ == #[trigger] after_update(self.assembled_view(w), 0, ev)) && (
            self.width_spec() is None ==> exists|tw: u16, ev: Option<(u16, u16)>|
                bar@ == #[trigger] after_update(self.assembled_view(tw as u64), 0, ev)),
            self.width_spec() is Some && self.status_width_spec() is None ==> (r matches Err(e)
                && (e matches Error::MissingField(name) && name@ == "status_width"@)),
            self.width_spec() is Some && self.status_width_spec() is Some && self.fmt_spec()
                is None ==> (r matches Err(e) && (e matches Error::MissingField(name) && name@
                == "status_fmt"@)),
            self.status_width_spec() is None || self.fmt_spec() is None ==> !(r is Ok),
            self.width_spec() is Some && self.status_width_spec() is Some && self.fmt_spec()
                is Some ==> (r is Ok || (r matches Err(e) && e matches Error::Io(_))),
            self.width_spec() is None && self.status_width_spec() is Some && self.fmt_spec()
                is Some ==> (r is Ok || (r matches Err(e) && (e matches Error::Crossterm(_)
                || e matches Error::Io(_)))),
            self.width_spec() is None && self.status_width_spec() is None ==> (r matches Err(e)
                && (e matches Error::Crossterm(_) || (e matches Error::MissingField(name)
                && name@ == "status_width"@))),
            self.width_spec() is None && self.status_width_spec() is Some && self.fmt_spec()
                is None ==> (r matches Err(e) && (e matches Error::Crossterm(_) || (
            e matches Error::MissingField(name) && name@ == "status_fmt"@))),
    {
        let width: u64 = match self.width {
            Some(w) => w,
            None => {
                match query_size() {
                    Ok((columns, _rows)) => columns as u64,
                    Err(e) => {
                        return Err(Error::Crossterm(e));
                    },
                }
            },
        };
        let max_width: u64 = match self.max_width {
            Some(m) => m,
            None => width,
        };
        let status_width: u64 = match self.status_width {
            Some(s) => s,
            None => {
                return Err(Error::MissingField("status_width"));
            },
        };
        let status_fmt: F = match self.status_fmt {
            Some(f) => f,
            None => {
                return Err(Error::MissingField("status_fmt"));
            },
        };
        let mut bar = Bar::assemble(
            self.total,
            width,
            max_width,
            status_width,
            status_fmt,
            target,
            events,
        );
        let ghost pre = bar@;
        match bar.update(0) {
            Ok(()) => {
                proof {
                    let ev = choose|ev: Option<(u16, u16)>| bar@ == after_update(pre, 0, ev);
                    assert(pre =~= self.assembled_view(width));
                    assert(bar@ == after_update(self.assembled_view(width), 0, ev));
                    if self.width_spec() is None {
                        let tw = width as u16;
                        assert(tw as u64 == width);
                        assert(bar@ == after_update(self.assembled_view(tw as u64), 0, ev));
                    }
                }
                Ok(bar)
            },
            Err(e) => Err(e),
        }
    }

    /// Finalizes against the given output sink, polling the terminal's own
    /// resize signal on each update.
    pub fn build<T: Target>(self, target: T) -> (r: Result<Bar<T, TermEvents, F>, Error>)
        requires
            self.total_spec() > 0,
            self.fmt_accepts_all(),
        ensures
            r matches Ok(bar) ==> bar.wf() && bar.total_val() == self.total_spec()
                && bar@.count == 0 && Some(bar@.status_width as u64)
                == self.status_width_spec() && Some(bar.fmt_spec()) == self.fmt_spec() && (
            self.max_width_spec() matches Some(m) ==> bar@.max_width == m as nat) && (
            self.width_spec() matches Some(w) ==> (self.max_width_spec() is None
                ==> bar@.max_width == w as nat)) && (self.width_spec() matches Some(w)
                ==> exists|ev: Option<(u16, u16)>|
                bar@ == #[trigger] after_update(self.assembled_view(w), 0, ev)) && (
            self.width_spec() is None ==> exists|tw: u16, ev: Option<(u16, u16)>|
                bar@ == #[trigger] after_update(self.assembled_view(tw as u64), 0, ev)),
            self.width_spec() is Some && self.status_width_spec() is None ==> (r matches Err(e)
                && (e matches Error::MissingField(name) && name@ == "status_width"@)),
            self.width_spec() is Some && self.status_width_spec() is Some && self.fmt_spec()
                is None ==> (r matches Err(e) && (e matches Error::MissingField(name) && name@
                == "status_fmt"@)),
            self.status_width_spec() is None || self.fmt_spec() is None ==> !(r is Ok),
            self.width_spec() is Some && self.status_width_spec() is Some && self.fmt_spec()
                is Some ==> (r is Ok || (r matches Err(e) && e matches Error::Io(_))),
            self.width_spec() is None && self.status_width_spec() is Some && self.fmt_spec()
                is Some ==> (r is Ok || (r matches Err(e) && (e matches Error::Crossterm(_)
                || e matches Error::Io(_)))),
            self.width_spec() is None && self.status_width_spec() is None ==> (r matches Err(e)
                && (e matches Error::Crossterm(_) || (e matches Error::MissingField(name)
                && name@ == "status_width"@))),
            self.width_spec() is None && self.status_width_spec() is Some && self.fmt_spec()
                is None ==> (r matches Err(e) && (e matches Error::Crossterm(_) || (
            e matches Error::MissingField(name) && name@ == "status_fmt"@))),
    {
        self.build_with(target, TermEvents)
    }
}

} // verus!

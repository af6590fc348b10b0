//! The bar itself: the rendering state bound to an output sink and a resize
//! signal, with the update operations that redraw the line.
use vstd::prelude::*;

use crate::render::{
    after_update, bar_body_width, effective_width, fill_width, line_seq, shrinks, BarView,
};
use crate::term::{frame_text, EventSource, Target};
use crate::Error;

verus! {

/// A progress bar: the counters and widths that determine each redraw, the
/// status formatter, and exclusive holds on the output sink and the resize
/// signal.
pub struct Bar<T: Target, E: EventSource, F: Fn(u64, u64) -> String> {
    pub(crate) total: u64,
    pub(crate) width: u64,
    pub(crate) max_width: u64,
    pub(crate) status_width: u64,
    pub(crate) status_fmt: F,
    pub(crate) count: u64,
    pub(crate) target: T,
    pub(crate) events: E,
}

impl<T: Target, E: EventSource, F: Fn(u64, u64) -> String> View for Bar<T, E, F> {
    type V = BarView;

    closed spec fn view(&self) -> BarView {
        BarView {
            total: self.total as nat,
            width: self.width as nat,
            max_width: self.max_width as nat,
            status_width: self.status_width as nat,
            count: self.count as nat,
        }
    }
}

impl<T: Target, E: EventSource, F: Fn(u64, u64) -> String> Bar<T, E, F> {
    /// A bar is well formed when its total is positive (the fill arithmetic
    /// divides by it), its count has not passed the total, and its status
    /// formatter accepts every reachable (count, total) pair.
    pub closed spec fn wf(self) -> bool {
        &&& self.total > 0
        &&& self.count <= self.total
        &&& forall|c: u64|
            c <= self.total ==> #[trigger] call_requires(self.status_fmt, (c, self.total))
    }

    /// What well-formedness gives of the abstract state: the total is
    /// positive and the count has not passed it, with the view's counters
    /// being the exec ones. This lets a caller apply the crate's rendering
    /// lemmas (which ask for a positive total) to a live bar's view.
    pub proof fn lemma_wf_view(&self)
        requires
            self.wf(),
        ensures
            self@.total > 0,
            self@.count <= self@.total,
            self@.total == self.total_val() as nat,
            self@.count == self.count_val() as nat,
    {
    }

    /// The spec-level handle to the output sink, for relating it across calls.
    pub closed spec fn target_spec(self) -> T {
        self.target
    }

    /// The spec-level handle to the status formatter, for relating it across
    /// calls and constraining what it returns.
    pub closed spec fn fmt_spec(self) -> F {
        self.status_fmt
    }

    /// Assembles a bar at zero progress from a finalized configuration.
    pub(crate) fn assemble(
        total: u64,
        width: u64,
        max_width: u64,
        status_width: u64,
        status_fmt: F,
        target: T,
        events: E,
    ) -> (r: Self)
        requires
            total > 0,
            forall|c: u64| c <= total ==> #[trigger] call_requires(status_fmt, (c, total)),
        ensures
            r.wf(),
            r@ == (BarView {
                total: total as nat,
                width: width as nat,
                max_width: max_width as nat,
                status_width: status_width as nat,
                count: 0,
            }),
            r.total_val() == total,
            r.fmt_spec() == status_fmt,
            r.target_spec() == target,
    {
        Bar { total, width, max_width, status_width, status_fmt, count: 0, target, events }
    }

    /// The effective width: the last known terminal width, capped by the
    /// configured maximum.
    pub fn width(&self) -> (r: u64)
        ensures
            r as nat == effective_width(self@),
    {
        if self.width <= self.max_width {
            self.width
        } else {
            self.max_width
        }
    }

    /// Renders the current bar line: `[`, the fill, `] `, and the status
    /// column holding what the status formatter returned for the current
    /// count and the total.
    pub fn bar(&self) -> (r: String)
        requires
            self.wf(),
        ensures
            exists|st: String|
                #[trigger] call_ensures(self.fmt_spec(), (self.count_val(), self.total_val()), st)
                    && r@ == line_seq(self@, st@),
    {
        let w = self.width();
        let body: u64 = if w >= 3 && w - 3 >= self.status_width {
            w - 3 - self.status_width
        } else {
            0
        };
        assert(body as nat == bar_body_width(self@));
        proof {
            assert((self.count as u128) * (body as u128)
                <= 0xFFFF_FFFF_FFFF_FFFF_FFFF_FFFF_FFFF_FFFFu128) by (nonlinear_arith)
                requires
                    self.count <= 0xFFFF_FFFF_FFFF_FFFFu128,
                    body <= 0xFFFF_FFFF_FFFF_FFFFu128,
            ;
        }
        let q: u128 = (self.count as u128) * (body as u128) / (self.total as u128);
        let fill: u64 = if q <= body as u128 {
            q as u64
        } else {
            body
        };
        assert(fill as nat == fill_width(self@));
        let status = (self.status_fmt)(self.count, self.total);
        let line = crate::render::compose_line(fill, body, self.status_width, status.as_str());
        proof {
            assert(line@ =~= line_seq(self@, status@));
            assert(call_ensures(self.fmt_spec(), (self.count_val(), self.total_val()), status)
                && line@ == line_seq(self@, status@));
        }
        line
    }

    /// The current count, as a spec value of the exec type.
    pub closed spec fn count_val(self) -> u64 {
        self.count
    }

    /// The total, as a spec value of the exec type.
    pub closed spec fn total_val(self) -> u64 {
        self.total
    }

    /// Applies a polled resize event: replaces the raw width and reports
    /// whether the effective width shrank, which obliges the caller to move
    /// to a fresh line before redrawing.
    fn apply_resize(&mut self, ev: Option<(u16, u16)>) -> (emit_newline: bool)
        ensures
            final(self)@ == (match ev {
                None => old(self)@,
                Some(wh) => crate::render::resized_view(old(self)@, wh.0 as nat),
            }),
            emit_newline == (ev matches Some(wh) && shrinks(old(self)@, wh.0 as nat)),
            final(self).total_val() == old(self).total_val(),
            final(self).count_val() == old(self).count_val(),
            final(self).fmt_spec() == old(self).fmt_spec(),
            final(self).target_spec() == old(self).target_spec(),
    {
        match ev {
            Some((columns, _rows)) => {
                let shrink = (columns as u64) < self.width();
                self.width = columns as u64;
                proof {
                    assert(self@ =~= crate::render::resized_view(old(self)@, columns as nat));
                }
                shrink
            },
            None => false,
        }
    }

    /// Sets the count to `count` and redraws the line in place.
    ///
    /// A count past the total is refused with `Error::Overflow` before
    /// anything else happens: the bar is unchanged and nothing is written.
    /// Otherwise a pending resize is polled (a shrink of the effective width
    /// prefixes the redraw with a newline), the count is recorded, and one
    /// redraw frame is written to the sink and flushed; a sink failure is
    /// reported as `Error::Io` with the count and width already updated.
    pub fn update(&mut self, count: u64) -> (r: Result<(), Error>)
        requires
            old(self).wf(),
        ensures
            final(self).wf(),
            count > old(self).total_val() ==> (r matches Err(e) && (e matches Error::Overflow(c)
                && c == count)) && *final(self) == *old(self),
            count <= old(self).total_val() ==> exists|ev: Option<(u16, u16)>|
                final(self)@ == after_update(old(self)@, count as nat, ev),
            count <= old(self).total_val() ==> (r matches Err(e) ==> e matches Error::Io(_)),
            final(self).total_val() == old(self).total_val(),
            final(self).fmt_spec() == old(self).fmt_spec(),
    {
        if count > self.total {
            return Err(Error::Overflow(count));
        }
        let ev = self.events.poll_resize();
        let emit_newline = self.apply_resize(ev);
        self.count = count;
        proof {
            assert(self@ =~= after_update(old(self)@, count as nat, ev));
        }
        let line = self.bar();
        let frame = frame_text(emit_newline, line.as_str());
        match self.target.write_text(frame.as_str()) {
            Ok(()) => {},
            Err(e) => {
                return Err(Error::Io(e));
            },
        }
        match self.target.flush() {
            Ok(()) => Ok(()),
            Err(e) => Err(Error::Io(e)),
        }
    }

    /// Advances the count by `count`: `update` at the current count plus the
    /// increment.
    pub fn inc(&mut self, count: u64) -> (r: Result<(), Error>)
        requires
            old(self).wf(),
            old(self).count_val() + count <= u64::MAX,
        ensures
            final(self).wf(),
            old(self).count_val() + count > old(self).total_val() ==> (r matches Err(e) && (
            e matches Error::Overflow(c) && c == old(self).count_val() + count)) && *final(self)
                == *old(self),
            old(self).count_val() + count <= old(self).total_val() ==> exists|
                ev: Option<(u16, u16)>,
            | final(self)@ == #[trigger] after_update(
                old(self)@,
                (old(self).count_val() + count) as nat,
                ev,
            ),
            final(self).total_val() == old(self).total_val(),
    {
        let next = self.count + count;
        let r = self.update(next);
        proof {
            if next <= old(self).total_val() {
                let ev = choose|ev: Option<(u16, u16)>|
                    self@ == #[trigger] after_update(old(self)@, next as nat, ev);
                assert(self@ == after_update(
                    old(self)@,
                    (old(self).count_val() + count) as nat,
                    ev,
                ));
            }
        }
        r
    }

    /// Jumps to completion: consumes the bar after one `update` at the
    /// total, so the line shows a full bar.
    pub fn finish(self) -> (r: Result<(), Error>)
        requires
            self.wf(),
        ensures
            r matches Err(e) ==> e matches Error::Io(_),
    {
        let mut bar = self;
        let total = bar.total;
        bar.update(total)
    }

    /// Releases the output sink, handing it back to the caller.
    pub fn into_target(self) -> (r: T)
        ensures
            r == self.target_spec(),
    {
        self.target
    }
}

} // verus!

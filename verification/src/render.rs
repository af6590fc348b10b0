//! The rendering model of the bar: the abstract state of a bar, the layout
//! arithmetic (effective width, body width, fill width) and the exact shape
//! of one rendered line and one redraw frame.
use vstd::prelude::*;

use crate::digits::dec_seq;

verus! {

/// The abstract state of a bar: the counters and widths that determine what
/// one redraw writes.
#[verifier::ext_equal]
pub struct BarView {
    pub total: nat,
    pub width: nat,
    pub max_width: nat,
    pub status_width: nat,
    pub count: nat,
}

pub open spec fn min_nat(a: nat, b: nat) -> nat {
    if a <= b {
        a
    } else {
        b
    }
}

/// The column budget actually used for rendering: the last known terminal
/// width, capped by the configured maximum.
pub open spec fn effective_width(v: BarView) -> nat {
    min_nat(v.width, v.max_width)
}

/// The number of fill cells between the brackets: the effective width less
/// the three bracket/separator characters and the status column, zero when
/// the budget is too small for those reserved columns.
pub open spec fn bar_body_width(v: BarView) -> nat {
    if effective_width(v) >= 3 + v.status_width {
        (effective_width(v) - 3 - v.status_width) as nat
    } else {
        0
    }
}

/// How many cells of the body are filled: `count * body / total`, truncating,
/// clamped to the body width.
pub open spec fn fill_width(v: BarView) -> nat {
    min_nat(v.count * bar_body_width(v) / v.total, bar_body_width(v))
}

pub open spec fn repeat_char(c: char, n: nat) -> Seq<char> {
    Seq::new(n, |i: int| c)
}

/// The status text as rendered into its reserved column: truncated to at most
/// `w` characters, then padded on the left with spaces to exactly `w`.
pub open spec fn padded_status(s: Seq<char>, w: nat) -> Seq<char> {
    let t = if s.len() <= w {
        s
    } else {
        s.take(w as int)
    };
    repeat_char(' ', (w - t.len()) as nat) + t
}

/// One rendered bar line: `[`, the filled cells, the empty cells, `] `, and
/// the status column holding `status`.
pub open spec fn line_seq(v: BarView, status: Seq<char>) -> Seq<char> {
    seq!['['] + repeat_char('#', fill_width(v)) + repeat_char(
        ' ',
        (bar_body_width(v) - fill_width(v)) as nat,
    ) + seq![']', ' '] + padded_status(status, v.status_width)
}

/// The control sequence that moves the cursor to column `col` (zero-based):
/// `ESC [ {col+1} G`.
pub open spec fn move_col_seq(col: nat) -> Seq<char> {
    seq!['\u{1b}', '['] + dec_seq(col + 1) + seq!['G']
}

/// The control sequence that clears the current line: `ESC [ 2 K`.
pub open spec fn clear_line_seq() -> Seq<char> {
    seq!['\u{1b}', '[', '2', 'K']
}

/// One redraw frame: an optional newline (emitted when a resize shrank the
/// effective width), then move-to-column-zero, clear-line, and the bar line.
pub open spec fn frame_seq(emit_newline: bool, line: Seq<char>) -> Seq<char> {
    (if emit_newline {
        seq!['\n']
    } else {
        Seq::<char>::empty()
    }) + move_col_seq(0) + clear_line_seq() + line
}

/// The abstract state after the count is set to `c`.
pub open spec fn counted_view(v: BarView, c: nat) -> BarView {
    BarView { count: c, ..v }
}

/// The abstract state after a resize event reporting `w` columns: the raw
/// width is replaced, nothing else changes.
pub open spec fn resized_view(v: BarView, w: nat) -> BarView {
    BarView { width: w, ..v }
}

/// Whether a resize event reporting `w` columns shrinks the effective width.
pub open spec fn shrinks(v: BarView, w: nat) -> bool {
    effective_width(resized_view(v, w)) < effective_width(v)
}

/// The abstract state after one update to count `c` that saw the resize
/// event `ev`: the raw width is replaced by the event's column count, if any,
/// and the count is set to `c`.
pub open spec fn after_update(v: BarView, c: nat, ev: Option<(u16, u16)>) -> BarView {
    match ev {
        None => counted_view(v, c),
        Some(wh) => counted_view(resized_view(v, wh.0 as nat), c),
    }
}

/// The length law of the rendered line: whenever the effective width leaves
/// room for the two brackets, the separator and the status column, one
/// rendered line is exactly the effective width long, whatever text the
/// status formatter returned.
pub proof fn lemma_line_len(v: BarView, status: Seq<char>)
    requires
        effective_width(v) >= 3 + v.status_width,
    ensures
        line_seq(v, status).len() == effective_width(v),
{
}

/// Monotonic fill: with the widths fixed, the fill width never decreases as
/// the count grows, and at the total the bar is exactly full.
pub proof fn lemma_fill_monotonic(v: BarView, c1: nat, c2: nat)
    requires
        v.total > 0,
        c1 <= c2,
    ensures
        fill_width(counted_view(v, c1)) <= fill_width(counted_view(v, c2)),
        fill_width(counted_view(v, v.total)) == bar_body_width(v),
{
    let b = bar_body_width(v);
    let t = v.total;
    vstd::arithmetic::mul::lemma_mul_inequality(c1 as int, c2 as int, b as int);
    vstd::arithmetic::div_mod::lemma_div_is_ordered(
        c1 as int * b as int,
        c2 as int * b as int,
        t as int,
    );
    vstd::arithmetic::div_mod::lemma_div_multiples_vanish(b as int, t as int);
}

/// Idempotent redraws: a second update to the same count leaves the abstract
/// state unchanged, so with no intervening resize event and the same status
/// text the two redraw frames are byte-identical.
pub proof fn lemma_update_idempotent(v: BarView, c: nat, status: Seq<char>)
    ensures
        counted_view(counted_view(v, c), c) == counted_view(v, c),
        frame_seq(false, line_seq(counted_view(counted_view(v, c), c), status)) == frame_seq(
            false,
            line_seq(counted_view(v, c), status),
        ),
{
    assert(counted_view(counted_view(v, c), c) =~= counted_view(v, c));
}

/// One newline exactly on shrink: a redraw frame with the newline flag set
/// (which `Bar::update` does exactly when a resize shrank the effective
/// width) is one newline followed by the plain frame; the plain frame starts
/// with the escape character, never with a newline.
pub proof fn lemma_shrink_newline(line: Seq<char>)
    ensures
        frame_seq(true, line) == seq!['\n'] + frame_seq(false, line),
        frame_seq(false, line).len() > 0,
        frame_seq(false, line)[0] == '\u{1b}',
        frame_seq(true, line)[0] == '\n',
{
    assert(frame_seq(true, line) =~= seq!['\n'] + frame_seq(false, line));
    assert(frame_seq(false, line)[0] == '\u{1b}');
    assert(frame_seq(true, line)[0] == '\n');
}

/// Appends `n` copies of the single character of `piece` to `s`.
fn append_repeat(s: &mut String, piece: &str, n: u64)
    requires
        piece@.len() == 1,
    ensures
        final(s)@ == old(s)@ + repeat_char(piece@[0], n as nat),
{
    let ghost base = s@;
    let mut i: u64 = 0;
    while i < n
        invariant
            i <= n,
            piece@.len() == 1,
            s@ == base + repeat_char(piece@[0], i as nat),
        decreases n - i,
    {
        s.append(piece);
        proof {
            assert(s@ =~= base + repeat_char(piece@[0], (i + 1) as nat));
        }
        i = i + 1;
    }
    proof {
        assert(s@ =~= base + repeat_char(piece@[0], n as nat));
    }
}

/// Builds one bar line from the computed fill and body widths and the raw
/// status text.
pub fn compose_line(fill: u64, body: u64, status_width: u64, status: &str) -> (r: String)
    requires
        fill <= body,
    ensures
        r@ == seq!['['] + repeat_char('#', fill as nat) + repeat_char(
            ' ',
            (body - fill) as nat,
        ) + seq![']', ' '] + padded_status(status@, status_width as nat),
{
    proof {
        reveal_strlit("[");
        reveal_strlit("] ");
        reveal_strlit("#");
        reveal_strlit(" ");
    }
    let mut r = String::from_str("[");
    assert(r@ =~= seq!['[']);
    append_repeat(&mut r, "#", fill);
    append_repeat(&mut r, " ", body - fill);
    r.append("] ");
    assert(r@ =~= seq!['['] + repeat_char('#', fill as nat) + repeat_char(
        ' ',
        (body - fill) as nat,
    ) + seq![']', ' ']);

    let slen_raw: usize = status.unicode_len();
    let slen: u64 = slen_raw as u64;
    let trunc: &str = if slen <= status_width {
        status
    } else {
        assert(status_width < usize::MAX);
        status.substring_char(0, status_width as usize)
    };
    let tlen: u64 = if slen <= status_width {
        slen
    } else {
        status_width
    };
    assert(trunc@ == (if status@.len() <= status_width as nat {
        status@
    } else {
        status@.take(status_width as int)
    }));
    assert(tlen as nat == trunc@.len());
    append_repeat(&mut r, " ", status_width - tlen);
    r.append(trunc);
    proof {
        assert(r@ =~= seq!['['] + repeat_char('#', fill as nat) + repeat_char(
            ' ',
            (body - fill) as nat,
        ) + seq![']', ' '] + padded_status(status@, status_width as nat));
    }
    r
}

} // verus!


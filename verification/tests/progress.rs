use std::cell::{Cell, RefCell};
use std::rc::Rc;

use crossprogress::{percent_bar, BarBuilder, Error, EventSource, Target};

const MOVE_COL: &str = "\u{1b}[1G";
const CLEAR_LINE: &str = "\u{1b}[2K";

struct Rec {
    out: String,
}

impl Rec {
    fn new() -> Rec {
        Rec { out: String::new() }
    }
}

impl Target for Rec {
    fn write_text(&mut self, s: &str) -> Result<(), std::io::Error> {
        self.out.push_str(s);
        Ok(())
    }

    fn flush(&mut self) -> Result<(), std::io::Error> {
        Ok(())
    }
}

struct SharedRec(Rc<RefCell<String>>);

impl Target for SharedRec {
    fn write_text(&mut self, s: &str) -> Result<(), std::io::Error> {
        self.0.borrow_mut().push_str(s);
        Ok(())
    }

    fn flush(&mut self) -> Result<(), std::io::Error> {
        Ok(())
    }
}

struct FailingTarget;

impl Target for FailingTarget {
    fn write_text(&mut self, _s: &str) -> Result<(), std::io::Error> {
        Err(std::io::Error::new(std::io::ErrorKind::Other, "sink failure"))
    }

    fn flush(&mut self) -> Result<(), std::io::Error> {
        Ok(())
    }
}

struct NoResize;

impl EventSource for NoResize {
    fn poll_resize(&mut self) -> Option<(u16, u16)> {
        None
    }
}

struct SharedResize(Rc<Cell<Option<(u16, u16)>>>);

impl EventSource for SharedResize {
    fn poll_resize(&mut self) -> Option<(u16, u16)> {
        self.0.take()
    }
}

fn frame(line: &str) -> String {
    format!("{}{}{}", MOVE_COL, CLEAR_LINE, line)
}

fn plain_fmt(count: u64, total: u64) -> String {
    format!("{}/{}", count, total)
}

#[test]
fn initial_render_at_zero() {
    let bar = percent_bar(50).width(44).build_with(Rec::new(), NoResize).unwrap();
    let rec = bar.into_target();
    let line0 = format!("[{}] {}", " ".repeat(37), "  0%");
    assert_eq!(rec.out, frame(&line0));
}

#[test]
fn percent_fill_scenario() {
    let mut bar = percent_bar(50).width(44).build_with(Rec::new(), NoResize).unwrap();
    bar.update(25).unwrap();
    let rec = bar.into_target();
    let line0 = format!("[{}] {}", " ".repeat(37), "  0%");
    let line25 = format!("[{}{}] {}", "#".repeat(18), " ".repeat(19), " 50%");
    assert_eq!(line25.chars().count(), 44);
    assert_eq!(rec.out, format!("{}{}", frame(&line0), frame(&line25)));
}

#[test]
fn rendered_width_matches_effective() {
    let mut bar = percent_bar(50).width(44).build_with(Rec::new(), NoResize).unwrap();
    for c in 0..=50 {
        bar.update(c).unwrap();
        assert_eq!(bar.bar().chars().count(), 44);
    }
}

#[test]
fn overflow_rejected_state_unchanged() {
    let mut bar = BarBuilder::new(10)
        .width(30)
        .status(5, plain_fmt)
        .build_with(Rec::new(), NoResize)
        .unwrap();
    bar.update(5).unwrap();
    let before = bar.bar();
    assert!(before.contains("5/10"));
    match bar.update(11) {
        Err(Error::Overflow(c)) => assert_eq!(c, 11),
        _ => panic!("expected an overflow error"),
    }
    assert_eq!(bar.bar(), before);
    let rec = bar.into_target();
    assert!(rec.out.ends_with(&frame(&before)));
    assert_eq!(rec.out.matches(CLEAR_LINE).count(), 2);
}

#[test]
fn update_idempotent_bytes() {
    let mut bar = percent_bar(50).width(44).build_with(Rec::new(), NoResize).unwrap();
    bar.update(7).unwrap();
    bar.update(7).unwrap();
    let rec = bar.into_target();
    let line0 = format!("[{}] {}", " ".repeat(37), "  0%");
    let after_first = rec.out[frame(&line0).len()..].to_string();
    let half = after_first.len() / 2;
    assert_eq!(after_first[..half], after_first[half..]);
}

#[test]
fn fill_monotonic_and_full() {
    let mut bar = percent_bar(50).width(44).build_with(Rec::new(), NoResize).unwrap();
    let mut last_fill = 0;
    for c in 0..=50 {
        bar.update(c).unwrap();
        let line = bar.bar();
        let fill = line.matches('#').count();
        assert!(fill >= last_fill);
        last_fill = fill;
    }
    assert_eq!(last_fill, 37);
    assert!(bar.bar().starts_with(&format!("[{}]", "#".repeat(37))));
}

#[test]
fn resize_shrink_emits_newline() {
    let signal = Rc::new(Cell::new(None));
    let out = Rc::new(RefCell::new(String::new()));
    let mut bar = percent_bar(50)
        .width(44)
        .build_with(SharedRec(Rc::clone(&out)), SharedResize(Rc::clone(&signal)))
        .unwrap();
    let written_so_far = out.borrow().len();
    signal.set(Some((30, 10)));
    bar.update(1).unwrap();
    let all = out.borrow().clone();
    let tail = &all[written_so_far..];
    assert!(tail.starts_with('\n'));
    assert_eq!(tail.matches('\n').count(), 1);
}

#[test]
fn resize_growth_emits_no_newline() {
    let signal = Rc::new(Cell::new(None));
    let mut bar = percent_bar(50)
        .width(44)
        .build_with(Rec::new(), SharedResize(Rc::clone(&signal)))
        .unwrap();
    signal.set(Some((60, 10)));
    bar.update(1).unwrap();
    assert_eq!(bar.width(), 44);
    signal.set(Some((50, 10)));
    bar.update(2).unwrap();
    let rec = bar.into_target();
    assert_eq!(rec.out.matches('\n').count(), 0);
}

#[test]
fn resize_shrink_below_cap_wraps_line() {
    let signal = Rc::new(Cell::new(None));
    let mut bar = percent_bar(50)
        .width(44)
        .max_width(40)
        .build_with(Rec::new(), SharedResize(Rc::clone(&signal)))
        .unwrap();
    assert_eq!(bar.width(), 40);
    signal.set(Some((36, 10)));
    bar.update(1).unwrap();
    assert_eq!(bar.width(), 36);
    let rec = bar.into_target();
    assert_eq!(rec.out.matches('\n').count(), 1);
}

#[test]
fn missing_status_width_error() {
    let builder: BarBuilder<fn(u64, u64) -> String> = BarBuilder::new(10).width(20);
    match builder.build_with(Rec::new(), NoResize) {
        Err(Error::MissingField(name)) => assert_eq!(name, "status_width"),
        _ => panic!("expected a missing-field error"),
    }
}

#[test]
fn io_error_passed_through() {
    let r = percent_bar(10).width(20).build_with(FailingTarget, NoResize);
    match r {
        Err(Error::Io(_)) => {}
        _ => panic!("expected the sink failure to come back"),
    }
}

#[test]
fn status_truncated_to_column() {
    let mut bar = BarBuilder::new(10)
        .width(20)
        .status(4, |_c: u64, _t: u64| String::from("toolongstatus"))
        .build_with(Rec::new(), NoResize)
        .unwrap();
    bar.update(1).unwrap();
    let line = bar.bar();
    assert!(line.ends_with("] tool"));
    assert_eq!(line.chars().count(), 20);
}

#[test]
fn narrow_width_saturates() {
    let mut bar = BarBuilder::new(10)
        .width(5)
        .status(4, plain_fmt)
        .build_with(Rec::new(), NoResize)
        .unwrap();
    bar.update(3).unwrap();
    let line = bar.bar();
    assert_eq!(line, "[] 3/10");
    assert_eq!(line.chars().count(), 7);
}

#[test]
fn inc_accumulates() {
    let mut bar = BarBuilder::new(10)
        .width(30)
        .status(5, plain_fmt)
        .build_with(Rec::new(), NoResize)
        .unwrap();
    bar.inc(3).unwrap();
    assert!(bar.bar().contains("3/10"));
    bar.inc(4).unwrap();
    assert!(bar.bar().contains("7/10"));
    match bar.inc(4) {
        Err(Error::Overflow(c)) => assert_eq!(c, 11),
        _ => panic!("expected an overflow error"),
    }
    assert!(bar.bar().contains("7/10"));
}

#[test]
fn finish_fills_bar() {
    let out = Rc::new(RefCell::new(String::new()));
    let bar = percent_bar(50)
        .width(44)
        .build_with(SharedRec(Rc::clone(&out)), NoResize)
        .unwrap();
    bar.finish().unwrap();
    let full = format!("[{}] {}", "#".repeat(37), "100%");
    assert!(out.borrow().ends_with(&frame(&full)));
}

#[test]
fn percent_text_values() {
    assert_eq!(crossprogress::digits::percent_text(25, 50), "50%");
    assert_eq!(crossprogress::digits::percent_text(0, 50), "0%");
    assert_eq!(crossprogress::digits::percent_text(50, 50), "100%");
    assert_eq!(crossprogress::digits::percent_text(1, 3), "33%");
}

#[test]
fn dec_string_values() {
    assert_eq!(crossprogress::digits::dec_string(0), "0");
    assert_eq!(crossprogress::digits::dec_string(7), "7");
    assert_eq!(crossprogress::digits::dec_string(1234567890), "1234567890");
    assert_eq!(crossprogress::digits::dec_string(u64::MAX), "18446744073709551615");
}

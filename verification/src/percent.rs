//! Progress rendering: the exact bytes of a percent-complete bar, computed
//! and proved here, and a wrapper that prints a producer's progress as it is
//! drained.
//!
//! A line is a carriage return, a 50-cell bar between pipes, and the percent
//! complete with one digit after the decimal point in a field of width five;
//! the completion line alone ends with a newline.

use vstd::prelude::*;

use vstd::arithmetic::div_mod::lemma_div_is_ordered;
use vstd::arithmetic::div_mod::lemma_div_pos_is_pos;
use vstd::arithmetic::div_mod::lemma_multiply_divide_le;
use vstd::arithmetic::div_mod::lemma_multiply_divide_lt;

use crate::producer::BoundedProducer;
use crate::producer::Producer;
use crate::ratelimit::RateLimit;

verus! {

/// How many of `total` values are already consumed when `remaining` are
/// left; zero where the counts disagree so far that none can be.
pub open spec fn spec_done(total: int, remaining: int) -> int {
    if remaining <= total {
        total - remaining
    } else {
        0
    }
}

/// The percent complete in tenths, `0` to `1000`: the rational
/// `100 * done / total`, rounded to the nearest tenth with halves rounding
/// up. An empty total counts as complete.
pub open spec fn percent_tenths(total: int, remaining: int) -> int {
    if total <= 0 {
        1000
    } else {
        (2000 * spec_done(total, remaining) + total) / (2 * total)
    }
}

/// How many of the 50 bar cells are filled: the floor of half the percent
/// complete. An empty total fills the whole bar.
pub open spec fn filled_cells(total: int, remaining: int) -> int {
    if total <= 0 {
        50
    } else {
        50 * spec_done(total, remaining) / total
    }
}

/// The byte of a decimal digit.
pub open spec fn digit(d: int) -> u8 {
    (48 + d) as u8
}

/// The percent in tenths `t`, written to one decimal place in a field of
/// width five, space-padded on the left.
pub open spec fn percent_text(t: int) -> Seq<u8> {
    if t >= 1000 {
        seq![49u8, 48u8, 48u8, 46u8, 48u8]
    } else if t >= 100 {
        seq![32u8, digit(t / 100), digit((t / 10) % 10), 46u8, digit(t % 10)]
    } else {
        seq![32u8, 32u8, digit(t / 10), 46u8, digit(t % 10)]
    }
}

/// The 50 cells of the bar: `filled` hash signs, then spaces.
pub open spec fn bar_cells(filled: int) -> Seq<u8> {
    Seq::new(50, |i: int| if i < filled { 35u8 } else { 32u8 })
}

/// The whole rendered line for `remaining` of `total` values left: carriage
/// return, the bar between pipes, a space, the percent field and a percent
/// sign; the completion line, `is_last`, ends with a newline.
pub open spec fn progress_line(total: int, remaining: int, is_last: bool) -> Seq<u8> {
    let head = seq![13u8, 124u8] + bar_cells(filled_cells(total, remaining)) + seq![124u8, 32u8]
        + percent_text(percent_tenths(total, remaining)) + seq![37u8];
    if is_last {
        head + seq![10u8]
    } else {
        head
    }
}

/// The percent in tenths lies between 0 and 1000, and the filled cells
/// between 0 and 50, whatever the counts: rendering is total.
pub proof fn lemma_render_bounds(total: int, remaining: int)
    requires
        total >= 0,
        remaining >= 0,
    ensures
        0 <= filled_cells(total, remaining) <= 50,
        0 <= percent_tenths(total, remaining) <= 1000,
{
    if total > 0 {
        let d = spec_done(total, remaining);
        assert(0 <= d <= total);
        assert(50 * d <= total * 50) by (nonlinear_arith)
            requires
                0 <= d <= total,
        ;
        lemma_div_pos_is_pos(50 * d, total);
        lemma_multiply_divide_le(50 * d, total, 50);
        assert(2000 * d + total < (2 * total) * 1001) by (nonlinear_arith)
            requires
                0 < total,
                0 <= d <= total,
        ;
        lemma_div_pos_is_pos(2000 * d + total, 2 * total);
        lemma_multiply_divide_lt(2000 * d + total, 2 * total, 1001);
    }
}

/// As the remaining count falls over a fixed total, the rendered percent and
/// the filled cells never fall: the bar is monotone while a producer drains.
pub proof fn lemma_render_monotone(total: int, before: int, after: int)
    requires
        0 <= after <= before,
    ensures
        percent_tenths(total, before) <= percent_tenths(total, after),
        filled_cells(total, before) <= filled_cells(total, after),
{
    if total > 0 {
        let d1 = spec_done(total, before);
        let d2 = spec_done(total, after);
        assert(d1 <= d2);
        lemma_div_is_ordered(50 * d1, 50 * d2, total);
        lemma_div_is_ordered(2000 * d1 + total, 2000 * d2 + total, 2 * total);
    }
}

/// Renders the progress line for `remaining` of `total` values left, byte
/// for byte as `progress_line` states it.
#[verifier::rlimit(60)]
pub fn render_line(total: usize, remaining: usize, is_last: bool) -> (line: Vec<u8>)
    ensures
        line@ == progress_line(total as int, remaining as int, is_last),
{
    let ghost ti = total as int;
    let ghost ri = remaining as int;
    let done: usize = if remaining <= total {
        total - remaining
    } else {
        0
    };
    let filled: u128;
    let tenths: u128;
    if total == 0 {
        filled = 50;
        tenths = 1000;
    } else {
        let t = total as u128;
        let d = done as u128;
        filled = (50 * d) / t;
        tenths = (2000 * d + t) / (2 * t);
    }
    proof {
        lemma_render_bounds(ti, ri);
        assert(filled as int == filled_cells(ti, ri));
        assert(tenths as int == percent_tenths(ti, ri));
    }
    let mut line: Vec<u8> = Vec::new();
    line.push(13u8);
    line.push(124u8);
    let mut i: usize = 0;
    while i < 50
        invariant
            i <= 50,
            0 <= filled <= 50,
            filled as int == filled_cells(ti, ri),
            line@ == seq![13u8, 124u8] + bar_cells(filled as int).take(i as int),
        decreases 50 - i,
    {
        if (i as u128) < filled {
            line.push(35u8);
        } else {
            line.push(32u8);
        }
        proof {
            assert(line@ =~= seq![13u8, 124u8] + bar_cells(filled as int).take(i as int + 1));
        }
        i = i + 1;
    }
    proof {
        assert(bar_cells(filled as int).take(50) =~= bar_cells(filled as int));
    }
    line.push(124u8);
    line.push(32u8);
    if tenths >= 1000 {
        line.push(49u8);
        line.push(48u8);
        line.push(48u8);
        line.push(46u8);
        line.push(48u8);
    } else if tenths >= 100 {
        line.push(32u8);
        line.push(48 + (tenths / 100) as u8);
        line.push(48 + ((tenths / 10) % 10) as u8);
        line.push(46u8);
        line.push(48 + (tenths % 10) as u8);
    } else {
        line.push(32u8);
        line.push(32u8);
        line.push(48 + (tenths / 10) as u8);
        line.push(46u8);
        line.push(48 + (tenths % 10) as u8);
    }
    line.push(37u8);
    if is_last {
        line.push(10u8);
    }
    proof {
        assert(line@ =~= progress_line(ti, ri, is_last));
    }
    line
}

/// `std::io::Stdout`, declared so that a handle on the standard output can
/// be written and flushed. The type is opaque here.
#[verifier::external_type_specification]
#[verifier::external_body]
pub struct ExStdout(std::io::Stdout);

/// Relies on `std::io::stdout`: a handle on the process's standard output.
#[verifier::external_body]
fn stdout_handle() -> std::io::Stdout {
    std::io::stdout()
}

/// Relies on `std::io::Write::write_all` on `Stdout`: writes the whole
/// buffer, reporting whether it succeeded. What reaches the terminal is I/O,
/// so nothing is promised of it.
#[verifier::external_body]
fn write_stdout(out: &mut std::io::Stdout, bytes: &Vec<u8>) -> bool {
    std::io::Write::write_all(out, bytes.as_slice()).is_ok()
}

/// Relies on `std::io::Write::flush` on `Stdout`: pushes buffered output
/// out, reporting whether it succeeded.
#[verifier::external_body]
fn flush_stdout(out: &mut std::io::Stdout) -> bool {
    std::io::Write::flush(out).is_ok()
}

/// Hands one rendered line to the standard output and flushes it at once,
/// since no newline ends it. Reports whether both steps succeeded.
fn emit_line(line: &Vec<u8>) -> bool {
    let mut out = stdout_handle();
    let wrote = write_stdout(&mut out, line);
    let flushed = flush_stdout(&mut out);
    wrote && flushed
}

/// The render interval of a progress wrapper, in nanoseconds: lines are
/// redrawn at most once per tenth of a second.
pub const RENDER_INTERVAL_NS: u128 = 100_000_000;

/// Wraps a bounded producer and prints a progress bar showing how much of it
/// has been consumed. The total is captured once at construction; each pull
/// redraws the bar, rate-limited to one redraw per `RENDER_INTERVAL_NS`,
/// except the completion line, which is printed unconditionally on the pull
/// that signals exhaustion. The values come through unchanged and in order.
pub struct PercentIterator<I> {
    iter: I,
    bound: usize,
    ratelimit: RateLimit,
    write_failed: bool,
    emitted: Ghost<Seq<Seq<u8>>>,
}

impl<I: BoundedProducer> PercentIterator<I> {
    /// The total captured at construction: how many values the inner
    /// producer had left when the wrapper was built.
    pub closed spec fn total(&self) -> nat {
        self.bound as nat
    }

    /// The least number of nanoseconds between two redraws of the bar.
    pub closed spec fn render_interval(&self) -> nat {
        self.ratelimit.interval()
    }

    /// Every line handed to the output so far, oldest first.
    pub closed spec fn lines(&self) -> Seq<Seq<u8>> {
        self.emitted@
    }

    /// Whether some write or flush of a line has failed so far.
    pub closed spec fn spec_render_failed(&self) -> bool {
        self.write_failed
    }

    /// Directly wrap a bounded producer and print its progress, starting
    /// with nothing printed and the first redraw permitted at once.
    pub fn new(iter: I) -> (r: Self)
        ensures
            r.model() == iter.model(),
            r.total() == iter.model().len(),
            r.render_interval() == RENDER_INTERVAL_NS,
            r.lines() == Seq::<Seq<u8>>::empty(),
            !r.spec_render_failed(),
    {
        let bound = iter.remaining();
        PercentIterator {
            iter,
            bound,
            ratelimit: RateLimit::new(RENDER_INTERVAL_NS),
            write_failed: false,
            emitted: Ghost(Seq::empty()),
        }
    }

    /// Whether some write or flush of a line has failed so far. A bar that
    /// cannot render has lost its reason for existing, so the failure is
    /// kept and reported rather than swallowed.
    pub fn render_failed(&self) -> (b: bool)
        ensures
            b == self.spec_render_failed(),
    {
        self.write_failed
    }

    /// One pull: while values remain, at most one redraw of the bar, spaced
    /// by the render interval; on the pull that signals exhaustion, exactly
    /// one completion line, printed whatever the limiter's state. Then the
    /// inner pull, whose value comes through unchanged.
    pub fn pull(&mut self) -> (r: Option<I::Item>)
        ensures
            final(self).total() == old(self).total(),
            (match r {
                Some(v) => old(self).model().len() > 0 && v == old(self).model()[0]
                    && final(self).model() == old(self).model().drop_first(),
                None => old(self).model().len() == 0 && final(self).model() == old(self).model(),
            }),
            old(self).model().len() > 0 ==> final(self).lines() == old(self).lines()
                || final(self).lines() == old(self).lines().push(
                progress_line(old(self).total() as int, old(self).model().len() as int, false),
            ),
            old(self).model().len() == 0 ==> final(self).lines() == old(self).lines().push(
                progress_line(old(self).total() as int, 0, true),
            ) && r is None,
            old(self).spec_render_failed() ==> final(self).spec_render_failed(),
    {
        let len = self.iter.remaining();
        if len != 0 {
            let line = render_line(self.bound, len, false);
            let ghost line_bytes = line@;
            let draw = (move || -> (ok: bool) { emit_line(&line) });
            let res = self.ratelimit.try_act(draw);
            match res {
                Some(ok) => {
                    self.emitted = Ghost(self.emitted@.push(line_bytes));
                    if !ok {
                        self.write_failed = true;
                    }
                },
                None => {},
            }
        } else {
            let line = render_line(self.bound, 0, true);
            let ok = emit_line(&line);
            self.emitted = Ghost(self.emitted@.push(line@));
            if !ok {
                self.write_failed = true;
            }
        }
        self.iter.next()
    }
}

/// Whether `line` is an intermediate render over the total `t`: the bar for
/// some remaining count that was still positive when at most `orig` values
/// remained. No such line is the completion line, which alone is rendered
/// for a remaining count of zero and ends with a newline.
pub open spec fn is_intermediate_render(t: int, orig: int, line: Seq<u8>) -> bool {
    exists|len: int| 0 < len <= orig && line == #[trigger] progress_line(t, len, false)
}

/// Pulls a progress wrapper to exhaustion: the values come out unchanged and
/// in order, and the printing is as the bar promises — whatever lines stood
/// before are untouched, every line of the run but the last is an
/// intermediate render, and the completion line goes out exactly once, as
/// the last line of the run.
pub fn drain_percent<I: BoundedProducer>(w: &mut PercentIterator<I>) -> (r: Vec<I::Item>)
    ensures
        r@ == old(w).model(),
        final(w).model().len() == 0,
        final(w).total() == old(w).total(),
        final(w).lines().len() > old(w).lines().len(),
        final(w).lines().take(old(w).lines().len() as int) == old(w).lines(),
        final(w).lines().last() == progress_line(old(w).total() as int, 0, true),
        forall|j: int|
            old(w).lines().len() <= j < final(w).lines().len() - 1 ==> is_intermediate_render(
                old(w).total() as int,
                old(w).model().len() as int,
                #[trigger] final(w).lines()[j],
            ),
{
    let ghost orig_model = w.model();
    let ghost orig_lines = w.lines();
    let ghost orig_len = w.model().len();
    let ghost total = w.total();
    let ghost k = orig_lines.len() as int;
    let mut out: Vec<I::Item> = Vec::new();
    proof {
        assert(w.lines().take(k) =~= orig_lines);
    }
    loop
        invariant_except_break
            k == orig_lines.len(),
            orig_len == orig_model.len(),
            w.total() == total,
            out@ + w.model() == orig_model,
            w.lines().len() >= orig_lines.len(),
            w.lines().take(k) == orig_lines,
            forall|j: int|
                k <= j < w.lines().len() ==> is_intermediate_render(
                    total as int,
                    orig_len as int,
                    #[trigger] w.lines()[j],
                ),
        ensures
            out@ == orig_model,
            w.model().len() == 0,
            w.total() == total,
            w.lines().len() > orig_lines.len(),
            w.lines().take(k) == orig_lines,
            w.lines().last() == progress_line(total as int, 0, true),
            forall|j: int|
                k <= j < w.lines().len() - 1 ==> is_intermediate_render(
                    total as int,
                    orig_len as int,
                    #[trigger] w.lines()[j],
                ),
        decreases w.model().len(),
    {
        let ghost pre_lines = w.lines();
        let ghost pre_len = w.model().len();
        match w.pull() {
            Some(v) => {
                out.push(v);
                proof {
                    assert(out@ + w.model() =~= orig_model);
                    assert(w.lines() == pre_lines || w.lines() == pre_lines.push(
                        progress_line(total as int, pre_len as int, false),
                    ));
                    assert(w.lines().take(k) =~= pre_lines.take(k));
                    assert(0 < pre_len <= orig_len);
                    assert forall|j: int| k <= j < w.lines().len() implies is_intermediate_render(
                        total as int,
                        orig_len as int,
                        #[trigger] w.lines()[j],
                    ) by {
                        if j < pre_lines.len() {
                            assert(w.lines()[j] == pre_lines[j]);
                        } else {
                            assert(w.lines()[j] == progress_line(
                                total as int,
                                pre_len as int,
                                false,
                            ));
                        }
                    }
                }
            },
            None => {
                proof {
                    assert(out@ + w.model() =~= out@);
                    assert(w.lines() == pre_lines.push(progress_line(total as int, 0, true)));
                    assert(w.lines().take(k) =~= pre_lines.take(k));
                    assert forall|j: int|
                        k <= j < w.lines().len() - 1 implies is_intermediate_render(
                        total as int,
                        orig_len as int,
                        #[trigger] w.lines()[j],
                    ) by {
                        assert(w.lines()[j] == pre_lines[j]);
                    }
                }
                break ;
            },
        }
    }
    out
}

impl<I: BoundedProducer> Producer for PercentIterator<I> {
    type Item = I::Item;

    closed spec fn model(&self) -> Seq<I::Item> {
        self.iter.model()
    }

    fn next(&mut self) -> (r: Option<I::Item>) {
        self.pull()
    }
}

impl<I: BoundedProducer> BoundedProducer for PercentIterator<I> {
    fn remaining(&self) -> (n: usize) {
        self.iter.remaining()
    }
}

} // verus!

//! Lazy sequences of values. A `Producer` yields its values one at a time on
//! demand; a `BoundedProducer` also reports exactly how many remain. The
//! decorators of this crate wrap either and pass the values through
//! unchanged.

use vstd::prelude::*;

verus! {

/// A lazy sequence: a source of values pulled one at a time, signalling
/// exhaustion when none remain.
///
/// `model` is the mathematical content a producer answers for: the values it
/// has still to yield, first first. Every pull takes exactly the front of the
/// model or, on an empty model, signals exhaustion and changes nothing.
pub trait Producer: Sized {
    type Item;

    /// The values that remain to be yielded, in the order they will come.
    spec fn model(&self) -> Seq<Self::Item>;

    /// Pulls the next value, or signals exhaustion with `None`.
    fn next(&mut self) -> (r: Option<Self::Item>)
        ensures
            (match r {
                Some(v) => old(self).model().len() > 0 && v == old(self).model()[0]
                    && final(self).model() == old(self).model().drop_first(),
                None => old(self).model().len() == 0 && final(self).model() == old(self).model(),
            }),
    ;
}

/// A lazy sequence whose exact remaining count is known before exhaustion.
pub trait BoundedProducer: Producer {
    /// Reports exactly how many values remain to be yielded.
    fn remaining(&self) -> (n: usize)
        ensures
            n == self.model().len(),
    ;
}

/// The values of the half-open range from `start` to `end`, in ascending
/// order; empty where `start` is not below `end`.
pub open spec fn range_values(start: int, end: int) -> Seq<usize> {
    Seq::new(
        if start <= end {
            (end - start) as nat
        } else {
            0
        },
        |i: int| (start + i) as usize,
    )
}

/// The ascending values of a half-open range, as a bounded producer: what a
/// counted loop would feed the decorators.
pub struct RangeProducer {
    next_value: usize,
    end: usize,
}

impl RangeProducer {
    /// A producer of the values from `start` up to, not including, `end`;
    /// exhausted from the outset where `start` is not below `end`.
    pub fn new(start: usize, end: usize) -> (r: Self)
        ensures
            r.model() == range_values(start as int, end as int),
    {
        RangeProducer { next_value: start, end }
    }
}

impl Producer for RangeProducer {
    type Item = usize;

    closed spec fn model(&self) -> Seq<usize> {
        range_values(self.next_value as int, self.end as int)
    }

    fn next(&mut self) -> (r: Option<usize>) {
        if self.next_value < self.end {
            let v = self.next_value;
            self.next_value = self.next_value + 1;
            proof {
                assert(self.model() =~= old(self).model().drop_first());
            }
            Some(v)
        } else {
            None
        }
    }
}

impl BoundedProducer for RangeProducer {
    fn remaining(&self) -> (n: usize) {
        if self.next_value <= self.end {
            self.end - self.next_value
        } else {
            0
        }
    }
}

/// Pulls a producer to exhaustion and returns everything it yielded: the
/// values of its model, unchanged and in order.
pub fn collect_remaining<I: Producer>(p: &mut I) -> (r: Vec<I::Item>)
    ensures
        r@ == old(p).model(),
        final(p).model().len() == 0,
{
    let ghost orig = p.model();
    let mut out: Vec<I::Item> = Vec::new();
    loop
        invariant_except_break
            out@ + p.model() == orig,
        ensures
            out@ == orig,
            p.model().len() == 0,
        decreases p.model().len(),
    {
        match p.next() {
            Some(v) => {
                out.push(v);
                proof {
                    assert(out@ + p.model() =~= orig);
                }
            },
            None => {
                proof {
                    assert(out@ + p.model() =~= out@);
                }
                break ;
            },
        }
    }
    out
}

} // verus!

//! The trailing simple moving average over a scaled price series.
//!
//! The mean of the last `period` prices is returned exactly, as the pair
//! of the window's sum and the period: the mean is `sum / period`, kept
//! as a rational so that nothing is rounded inside the library.

use vstd::prelude::*;

verus! {

/// The sum of a scaled price sequence, added left to right.
pub open spec fn seq_sum(s: Seq<i64>) -> int
    decreases s.len(),
{
    if s.len() == 0 {
        0
    } else {
        seq_sum(s.drop_last()) + s.last()
    }
}

/// The trailing window of length `period`: the suffix the average is
/// taken over.
pub open spec fn trailing_window(s: Seq<i64>, period: int) -> Seq<i64> {
    s.subrange(s.len() - period, s.len() as int)
}

/// The simple moving average of the last `period` prices, as the exact
/// rational `sum / period`. If fewer than `period` prices exist, the
/// result is absent: not enough history is a normal outcome, not an
/// error. For all valid periods and long-enough series the returned sum
/// is the sum of exactly the last `period` elements, added left to
/// right, and the returned divisor is `period` itself.
pub fn simple_moving_average(prices: &Vec<i64>, period: usize) -> (r: Option<(i128, usize)>)
    requires
        period >= 1,
    ensures
        r is None <==> prices@.len() < period,
        r matches Some(p) ==> ({
            &&& p.0 == seq_sum(trailing_window(prices@, period as int))
            &&& p.1 == period
        }),
{
    if prices.len() < period {
        return None;
    }
    let start: usize = prices.len() - period;
    let mut sum: i128 = 0;
    let mut j: usize = start;
    proof {
        assert(prices@.subrange(start as int, start as int) =~= Seq::<i64>::empty());
    }
    while j < prices.len()
        invariant
            start <= j <= prices@.len(),
            start == prices@.len() - period,
            sum == seq_sum(prices@.subrange(start as int, j as int)),
            -(j - start) * 0x8000_0000_0000_0000 <= sum <= (j - start) * 0x7fff_ffff_ffff_ffff,
        decreases prices@.len() - j,
    {
        let x = prices[j];
        proof {
            let w = prices@.subrange(start as int, j + 1);
            assert(w.drop_last() =~= prices@.subrange(start as int, j as int));
            assert(w.last() == prices@[j as int]);
        }
        sum = sum + (x as i128);
        j += 1;
    }
    Some((sum, period))
}

} // verus!

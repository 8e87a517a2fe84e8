//! Shaping the engine's raw time-indexed table into a `ChartData` snapshot.
//!
//! The engine publishes bar timestamps in nanoseconds; the bridge stores
//! whole seconds, obtained by integer-truncating division. Close prices are
//! relayed untouched. A table whose time and close columns disagree in
//! length is rejected as a `DataShapeError`.

use vstd::prelude::*;

use crate::types::ChartData;
use crate::types::ChartReading;
use crate::types::DataShapeError;
use crate::NANOS_PER_SECOND;

verus! {

/// A nanosecond timestamp reduced to whole seconds by truncating division
/// (rounding toward zero).
pub open spec fn secs_of_ns(ns: i64) -> int {
    if ns >= 0 {
        (ns as int) / (NANOS_PER_SECOND as int)
    } else {
        -((-(ns as int)) / (NANOS_PER_SECOND as int))
    }
}

/// A chart snapshot is the faithful conversion of a reading when it keeps
/// the reading's order and length, carries every close price unchanged, and
/// reduces every timestamp to whole seconds.
pub open spec fn chart_matches_reading(d: ChartData, reading: ChartReading) -> bool {
    &&& d.time@.len() == reading.time_ns@.len()
    &&& d.close@ == reading.close_bits@
    &&& forall|i: int| 0 <= i < d.time@.len() ==> d.time@[i] as int == secs_of_ns(reading.time_ns@[i])
}

/// Reduce one engine timestamp from nanoseconds to whole seconds.
pub fn normalize_timestamp(ns: i64) -> (s: i64)
    ensures
        s as int == secs_of_ns(ns),
{
    proof {
        let x = ns as int;
        let d = NANOS_PER_SECOND as int;
        if x > 0 {
            assert(0 <= x / d <= x) by (nonlinear_arith)
                requires
                    x > 0,
                    d == 1_000_000_000int,
            ;
        } else if x < 0 {
            assert(0 <= (x * -1) / d <= x * -1) by (nonlinear_arith)
                requires
                    x < 0,
                    d == 1_000_000_000int,
            ;
        }
    }
    match ns.checked_div(NANOS_PER_SECOND) {
        Some(s) => s,
        None => 0,
    }
}

impl ChartData {
    /// Validate and convert a raw engine table. Succeeds exactly when the
    /// two columns have the same length; the result then keeps the
    /// reading's order, relays every close price unchanged, and reduces
    /// every timestamp to whole seconds.
    pub fn from_reading(reading: &ChartReading) -> (r: Result<ChartData, DataShapeError>)
        ensures
            r is Ok <==> reading.time_ns@.len() == reading.close_bits@.len(),
            r matches Ok(d) ==> d.wf() && chart_matches_reading(d, *reading),
            r is Err ==> r == Err::<ChartData, DataShapeError>(DataShapeError::MismatchedLengths),
    {
        if reading.time_ns.len() != reading.close_bits.len() {
            return Err(DataShapeError::MismatchedLengths);
        }
        let mut time: Vec<i64> = Vec::new();
        let n = reading.time_ns.len();
        let mut i: usize = 0;
        while i < n
            invariant
                n == reading.time_ns@.len(),
                0 <= i <= n,
                time@.len() == i,
                forall|k: int| 0 <= k < i ==> time@[k] as int == secs_of_ns(reading.time_ns@[k]),
            decreases n - i,
        {
            let s = normalize_timestamp(reading.time_ns[i]);
            time.push(s);
            i = i + 1;
        }
        let close = clone_u64_vec(&reading.close_bits);
        Ok(ChartData { time, close })
    }
}

/// Copy a vector of plain bit patterns.
fn clone_u64_vec(v: &Vec<u64>) -> (r: Vec<u64>)
    ensures
        r@ == v@,
{
    let mut r: Vec<u64> = Vec::new();
    let mut i: usize = 0;
    while i < v.len()
        invariant
            0 <= i <= v@.len(),
            r@ == v@.subrange(0, i as int),
        decreases v@.len() - i,
    {
        r.push(v[i]);
        i = i + 1;
    }
    assert(r@ == v@.subrange(0, v@.len() as int));
    assert(v@.subrange(0, v@.len() as int) == v@);
    r
}

} // verus!

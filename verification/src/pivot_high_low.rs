//! Local extrema over a sliding window of candles.
//!
//! For each position that owns a full window, the centre bar is a pivot high
//! when its high strictly dominates every other high in the window, and a
//! pivot low when its low strictly undercuts every other low. A bar can be
//! both at once (a tall candle). Positions too close to either edge for a
//! full window always report no change, so the output has exactly one entry
//! per input bar.

use vstd::prelude::*;

use crate::candle::Candle;

verus! {

/// What one bar of the input turned out to be.
#[derive(Clone, Copy, Debug, PartialEq, Eq, Structural)]
pub enum Pivot {
    High(i64),
    Low(i64),
    /// A tall candle that sets a new high and new low at the same time.
    HighLow { high: i64, low: i64 },
    NoChange,
}

impl Pivot {
    /// The high value of the pivot, if it has one: `Some` for `High` and
    /// `HighLow`, `None` for `Low` and `NoChange`.
    pub open spec fn high_spec(self) -> Option<i64> {
        match self {
            Pivot::High(high) => Some(high),
            Pivot::HighLow { high, .. } => Some(high),
            _ => None,
        }
    }

    /// The low value of the pivot, if it has one: `Some` for `Low` and
    /// `HighLow`, `None` for `High` and `NoChange`.
    pub open spec fn low_spec(self) -> Option<i64> {
        match self {
            Pivot::Low(low) => Some(low),
            Pivot::HighLow { low, .. } => Some(low),
            _ => None,
        }
    }

    /// The high value of the pivot, if it has one.
    pub fn high(&self) -> (r: Option<i64>)
        ensures
            r == self.high_spec(),
    {
        match self {
            Pivot::High(high) => Some(*high),
            Pivot::HighLow { high, .. } => Some(*high),
            _ => None,
        }
    }

    /// The low value of the pivot, if it has one.
    pub fn low(&self) -> (r: Option<i64>)
        ensures
            r == self.low_spec(),
    {
        match self {
            Pivot::Low(low) => Some(*low),
            Pivot::HighLow { low, .. } => Some(*low),
            _ => None,
        }
    }

    pub fn is_high(&self) -> (r: bool)
        ensures
            r == (self matches Pivot::High(_)),
    {
        matches!(self, Pivot::High(_))
    }

    pub fn is_low(&self) -> (r: bool)
        ensures
            r == (self matches Pivot::Low(_)),
    {
        matches!(self, Pivot::Low(_))
    }

    pub fn is_high_low(&self) -> (r: bool)
        ensures
            r == (self matches Pivot::HighLow { .. }),
    {
        matches!(self, Pivot::HighLow { .. })
    }

    pub fn is_no_change(&self) -> (r: bool)
        ensures
            r == (self matches Pivot::NoChange),
    {
        matches!(self, Pivot::NoChange)
    }
}

/// The window around centre `i` starts here; the centre sits at offset
/// `window_size / 2` inside its window.
pub open spec fn window_start(i: int, window_size: int) -> int {
    i - window_size / 2
}

/// Whether position `i` owns a full window inside a sequence of length `n`.
pub open spec fn has_full_window(n: int, window_size: int, i: int) -> bool {
    &&& window_start(i, window_size) >= 0
    &&& window_start(i, window_size) + window_size <= n
}

/// The centre bar's high strictly dominates every other high in its window.
pub open spec fn is_pivot_high(cs: Seq<Candle>, window_size: int, i: int) -> bool {
    forall|j: int|
        window_start(i, window_size) <= j < window_start(i, window_size) + window_size && j != i
            ==> cs[i].high > #[trigger] cs[j].high
}

/// The centre bar's low strictly undercuts every other low in its window.
pub open spec fn is_pivot_low(cs: Seq<Candle>, window_size: int, i: int) -> bool {
    forall|j: int|
        window_start(i, window_size) <= j < window_start(i, window_size) + window_size && j != i
            ==> cs[i].low < #[trigger] cs[j].low
}

/// The pivot reported for position `i`.
pub open spec fn pivot_at(cs: Seq<Candle>, window_size: int, i: int) -> Pivot {
    if !has_full_window(cs.len() as int, window_size, i) {
        Pivot::NoChange
    } else if is_pivot_high(cs, window_size, i) && is_pivot_low(cs, window_size, i) {
        Pivot::HighLow { high: cs[i].high, low: cs[i].low }
    } else if is_pivot_high(cs, window_size, i) {
        Pivot::High(cs[i].high)
    } else if is_pivot_low(cs, window_size, i) {
        Pivot::Low(cs[i].low)
    } else {
        Pivot::NoChange
    }
}

/// Why a pivot run was refused before producing any output.
#[derive(Clone, Copy, Debug, PartialEq, Eq, Structural)]
pub enum PivotError {
    /// A sliding window cannot be empty.
    ZeroWindow,
    /// The window must fit inside the input.
    WindowTooLarge,
}

/// Finds the pivot at every position of `input` using a sliding window of
/// `window_size` bars. Fails fast — before any output — when the window is
/// empty or larger than the input.
pub fn pivots(input: &Vec<Candle>, window_size: usize) -> (r: Result<Vec<Pivot>, PivotError>)
    ensures
        r is Ok <==> 1 <= window_size <= input@.len(),
        r == Result::<Vec<Pivot>, PivotError>::Err(PivotError::ZeroWindow) <==> window_size == 0,
        r == Result::<Vec<Pivot>, PivotError>::Err(PivotError::WindowTooLarge) <==> (1
            <= window_size && window_size > input@.len()),
        r matches Ok(ps) ==> ps@.len() == input@.len() && forall|i: int|
            0 <= i < ps@.len() ==> ps@[i] == pivot_at(input@, window_size as int, i),
{
    if window_size == 0 {
        return Err(PivotError::ZeroWindow);
    }
    if window_size > input.len() {
        return Err(PivotError::WindowTooLarge);
    }
    let n = input.len();
    let mid = window_size / 2;
    let mut out: Vec<Pivot> = Vec::new();
    let mut i: usize = 0;
    while i < n
        invariant
            0 <= i <= n,
            n == input@.len(),
            1 <= window_size <= n,
            mid == window_size / 2,
            out@.len() == i,
            forall|k: int| 0 <= k < i ==> out@[k] == pivot_at(input@, window_size as int, k),
        decreases n - i,
    {
        if i < mid || i - mid > n - window_size {
            assert(!has_full_window(n as int, window_size as int, i as int));
            out.push(Pivot::NoChange);
        } else {
            let s = i - mid;
            assert(has_full_window(n as int, window_size as int, i as int));
            let mid_high = input[i].high;
            let mid_low = input[i].low;
            let mut is_high = true;
            let mut is_low = true;
            let mut j: usize = s;
            while j < s + window_size
                invariant
                    s <= j <= s + window_size,
                    s + window_size <= n,
                    s <= i < s + window_size,
                    n == input@.len(),
                    mid_high == input@[i as int].high,
                    mid_low == input@[i as int].low,
                    is_high == forall|k: int|
                        s <= k < j && k != i ==> mid_high > #[trigger] input@[k].high,
                    is_low == forall|k: int|
                        s <= k < j && k != i ==> mid_low < #[trigger] input@[k].low,
                decreases s + window_size - j,
            {
                if j != i {
                    if mid_high <= input[j].high {
                        is_high = false;
                    }
                    if mid_low >= input[j].low {
                        is_low = false;
                    }
                }
                j += 1;
            }
            assert(is_high == is_pivot_high(input@, window_size as int, i as int));
            assert(is_low == is_pivot_low(input@, window_size as int, i as int));
            if is_high && is_low {
                out.push(Pivot::HighLow { high: mid_high, low: mid_low });
            } else if is_high {
                out.push(Pivot::High(mid_high));
            } else if is_low {
                out.push(Pivot::Low(mid_low));
            } else {
                out.push(Pivot::NoChange);
            }
        }
        i += 1;
    }
    Ok(out)
}

/// A position too close to either edge to own a full window is never a
/// pivot: it always reports no change.
pub proof fn lemma_pivot_edge_no_change(cs: Seq<Candle>, window_size: int, i: int)
    requires
        i < window_size / 2 || i + (window_size - window_size / 2) > cs.len(),
    ensures
        pivot_at(cs, window_size, i) == Pivot::NoChange,
{
}

/// With a window of at least three bars, the first and last positions of
/// any input never have a full window, so both report no change.
pub proof fn lemma_pivot_edges(cs: Seq<Candle>, window_size: int)
    requires
        3 <= window_size <= cs.len(),
    ensures
        pivot_at(cs, window_size, 0) == Pivot::NoChange,
        pivot_at(cs, window_size, cs.len() - 1) == Pivot::NoChange,
{
}

/// A strictly unimodal window — the centre's high strictly above every
/// other high, its low not strictly below every other low — makes the
/// centre a pivot high and nothing more.
pub proof fn lemma_pivot_unimodal_high(cs: Seq<Candle>, window_size: int, i: int)
    requires
        has_full_window(cs.len() as int, window_size, i),
        is_pivot_high(cs, window_size, i),
        !is_pivot_low(cs, window_size, i),
    ensures
        pivot_at(cs, window_size, i) == Pivot::High(cs[i].high),
{
}

/// The same data with the roles of high and low dominance swapped makes
/// the centre a pivot low instead.
pub proof fn lemma_pivot_unimodal_low(cs: Seq<Candle>, window_size: int, i: int)
    requires
        has_full_window(cs.len() as int, window_size, i),
        is_pivot_low(cs, window_size, i),
        !is_pivot_high(cs, window_size, i),
    ensures
        pivot_at(cs, window_size, i) == Pivot::Low(cs[i].low),
{
}

/// A centre bar that dominates on both sides at once is a tall candle: it
/// is reported as a simultaneous pivot high and pivot low.
pub proof fn lemma_pivot_tall_candle(cs: Seq<Candle>, window_size: int, i: int)
    requires
        has_full_window(cs.len() as int, window_size, i),
        is_pivot_high(cs, window_size, i),
        is_pivot_low(cs, window_size, i),
    ensures
        pivot_at(cs, window_size, i) == (Pivot::HighLow { high: cs[i].high, low: cs[i].low }),
{
}

/// Pivot detection is a pure function of the slice and the window size:
/// any two outputs that satisfy the detector's contract on the same input
/// are the same sequence.
pub proof fn lemma_pivots_deterministic(
    cs: Seq<Candle>,
    window_size: int,
    r1: Seq<Pivot>,
    r2: Seq<Pivot>,
)
    requires
        r1.len() == cs.len(),
        r2.len() == cs.len(),
        forall|i: int| 0 <= i < r1.len() ==> r1[i] == pivot_at(cs, window_size, i),
        forall|i: int| 0 <= i < r2.len() ==> r2[i] == pivot_at(cs, window_size, i),
    ensures
        r1 == r2,
{
    assert(r1 =~= r2);
}

} // verus!

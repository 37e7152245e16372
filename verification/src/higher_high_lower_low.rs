//! The swing classifier: a pivot sequence becomes one swing status per
//! pivot, carrying the running support and resistance lines.
//!
//! The classifier remembers the last pivot high and low it saw. The very
//! first high (or low) only seeds that memory; from then on every new high
//! redefines the resistance line and every new low the support line,
//! whether the line moves up or down. The reported swing type compares the
//! incoming pivot against the remembered values from before the update.

use vstd::prelude::*;

use crate::pivot_high_low::Pivot;

verus! {

/// The structural change one pivot caused.
#[derive(Clone, Copy, Debug, PartialEq, Eq, Structural)]
pub enum SwingType {
    /// A new higher resistance line has been created.
    HigherHigh,
    /// A new lower support line has been created.
    LowerLow,
    /// A new lower resistance line has been created.
    LowerHigh,
    /// A new higher support line has been created.
    HigherLow,
    /// A tall candle that raises resistance and support at the same time.
    HigherHighAndHigherLow,
    /// A tall candle that raises resistance and lowers support.
    HigherHighAndLowerLow,
    /// A tall candle that lowers resistance and raises support.
    LowerHighAndHigherLow,
    /// A tall candle that lowers resistance and support at the same time.
    LowerHighAndLowerLow,
    /// No significant change in support or resistance levels.
    Hold,
}

/// What the classifier reports for one pivot: the swing type and the
/// support/resistance lines as they stand after the pivot was absorbed.
#[derive(Clone, Copy, Debug, PartialEq, Eq)]
pub struct SwingStatus {
    pub swing_type: SwingType,
    pub support: Option<i64>,
    pub resistance: Option<i64>,
}

impl SwingStatus {
    pub fn new(swing_type: SwingType, support: Option<i64>, resistance: Option<i64>) -> (s:
        SwingStatus)
        ensures
            s == (SwingStatus { swing_type, support, resistance }),
    {
        SwingStatus { swing_type, support, resistance }
    }
}

/// The classifier's state: the last pivot high and low it has seen, and
/// the support and resistance lines established so far.
#[derive(Clone, Copy, Debug, PartialEq, Eq)]
pub struct SwingStatusIter {
    pub prev_high: Option<i64>,
    pub prev_low: Option<i64>,
    pub support: Option<i64>,
    pub resistance: Option<i64>,
}

/// The swing type for one pivot, judged against the remembered high and
/// low from before the pivot is absorbed. A side of the pivot counts only
/// when there is a remembered value to compare it against; a first-ever
/// high or low decides nothing yet.
pub open spec fn classify(prev_high: Option<i64>, prev_low: Option<i64>, p: Pivot) -> SwingType {
    match (p.high_spec(), prev_high, p.low_spec(), prev_low) {
        (Some(h), Some(ph), Some(l), Some(pl)) => if h >= ph && l <= pl {
            SwingType::HigherHighAndLowerLow
        } else if h >= ph {
            SwingType::HigherHighAndHigherLow
        } else if l <= pl {
            SwingType::LowerHighAndLowerLow
        } else {
            SwingType::LowerHighAndHigherLow
        },
        (Some(h), Some(ph), _, _) => if h >= ph {
            SwingType::HigherHigh
        } else {
            SwingType::LowerHigh
        },
        (_, _, Some(l), Some(pl)) => if l <= pl {
            SwingType::LowerLow
        } else {
            SwingType::HigherLow
        },
        _ => SwingType::Hold,
    }
}

/// How one pivot changes the classifier's state: a high seeds the high
/// memory the first time and thereafter also moves the resistance line;
/// lows and support symmetrically.
pub open spec fn step_state(st: SwingStatusIter, p: Pivot) -> SwingStatusIter {
    let st1 = match (p.high_spec(), st.prev_high) {
        (Some(h), Some(_)) => SwingStatusIter { prev_high: Some(h), resistance: Some(h), ..st },
        (Some(h), None) => SwingStatusIter { prev_high: Some(h), ..st },
        _ => st,
    };
    match (p.low_spec(), st.prev_low) {
        (Some(l), Some(_)) => SwingStatusIter { prev_low: Some(l), support: Some(l), ..st1 },
        (Some(l), None) => SwingStatusIter { prev_low: Some(l), ..st1 },
        _ => st1,
    }
}

/// The status reported for one pivot: the swing type judged before the
/// update, with the support and resistance lines from after it.
pub open spec fn step_status(st: SwingStatusIter, p: Pivot) -> SwingStatus {
    SwingStatus {
        swing_type: classify(st.prev_high, st.prev_low, p),
        support: step_state(st, p).support,
        resistance: step_state(st, p).resistance,
    }
}

/// The whole run of the classifier over a pivot sequence.
pub open spec fn swing_run(st: SwingStatusIter, ps: Seq<Pivot>) -> Seq<SwingStatus>
    decreases ps.len(),
{
    if ps.len() == 0 {
        Seq::<SwingStatus>::empty()
    } else {
        seq![step_status(st, ps[0])] + swing_run(step_state(st, ps[0]), ps.drop_first())
    }
}

/// The classifier reports exactly one status per pivot.
pub proof fn lemma_swing_run_len(st: SwingStatusIter, ps: Seq<Pivot>)
    ensures
        swing_run(st, ps).len() == ps.len(),
    decreases ps.len(),
{
    if ps.len() > 0 {
        lemma_swing_run_len(step_state(st, ps[0]), ps.drop_first());
    }
}

pub open spec fn check_hh_spec(st: SwingStatusIter, signal: Pivot) -> Option<SwingType> {
    match (signal, st.prev_high) {
        (Pivot::High(high), Some(prev_high)) => if high >= prev_high {
            Some(SwingType::HigherHigh)
        } else {
            None
        },
        _ => None,
    }
}

pub open spec fn check_lh_spec(st: SwingStatusIter, signal: Pivot) -> Option<SwingType> {
    match (signal, st.prev_high) {
        (Pivot::High(high), Some(prev_high)) => if high < prev_high {
            Some(SwingType::LowerHigh)
        } else {
            None
        },
        _ => None,
    }
}

pub open spec fn check_ll_spec(st: SwingStatusIter, signal: Pivot) -> Option<SwingType> {
    match (signal, st.prev_low) {
        (Pivot::Low(low), Some(prev_low)) => if low <= prev_low {
            Some(SwingType::LowerLow)
        } else {
            None
        },
        _ => None,
    }
}

pub open spec fn check_hl_spec(st: SwingStatusIter, signal: Pivot) -> Option<SwingType> {
    match (signal, st.prev_low) {
        (Pivot::Low(low), Some(prev_low)) => if low > prev_low {
            Some(SwingType::HigherLow)
        } else {
            None
        },
        _ => None,
    }
}

pub open spec fn check_hhll_spec(st: SwingStatusIter, signal: Pivot) -> Option<SwingType> {
    match (signal, st.prev_high, st.prev_low) {
        (Pivot::HighLow { high, low }, Some(prev_high), Some(prev_low)) => if high >= prev_high
            && low <= prev_low {
            Some(SwingType::HigherHighAndLowerLow)
        } else {
            None
        },
        _ => None,
    }
}

pub open spec fn check_hhhl_spec(st: SwingStatusIter, signal: Pivot) -> Option<SwingType> {
    match (signal, st.prev_high, st.prev_low) {
        (Pivot::HighLow { high, low }, Some(prev_high), Some(prev_low)) => if high >= prev_high
            && low > prev_low {
            Some(SwingType::HigherHighAndHigherLow)
        } else {
            None
        },
        _ => None,
    }
}

pub open spec fn check_lhhl_spec(st: SwingStatusIter, signal: Pivot) -> Option<SwingType> {
    match (signal, st.prev_high, st.prev_low) {
        (Pivot::HighLow { high, low }, Some(prev_high), Some(prev_low)) => if high < prev_high
            && low > prev_low {
            Some(SwingType::LowerHighAndHigherLow)
        } else {
            None
        },
        _ => None,
    }
}

pub open spec fn check_lhll_spec(st: SwingStatusIter, signal: Pivot) -> Option<SwingType> {
    match (signal, st.prev_high, st.prev_low) {
        (Pivot::HighLow { high, low }, Some(prev_high), Some(prev_low)) => if high < prev_high
            && low <= prev_low {
            Some(SwingType::LowerHighAndLowerLow)
        } else {
            None
        },
        _ => None,
    }
}

impl SwingStatusIter {
    /// The state before any pivot has been seen.
    pub open spec fn init_spec() -> SwingStatusIter {
        SwingStatusIter { prev_high: None, prev_low: None, support: None, resistance: None }
    }

    /// A fresh classifier with no memory and no lines.
    pub fn new() -> (s: SwingStatusIter)
        ensures
            s == SwingStatusIter::init_spec(),
    {
        SwingStatusIter { prev_high: None, prev_low: None, support: None, resistance: None }
    }

    /// A pivot high at or above the remembered one makes a higher high.
    pub fn check_hh(&self, signal: &Pivot) -> (r: Option<SwingType>)
        ensures
            r == check_hh_spec(*self, *signal),
    {
        match (signal, self.prev_high) {
            (Pivot::High(high), Some(prev_high)) => if *high >= prev_high {
                Some(SwingType::HigherHigh)
            } else {
                None
            },
            _ => None,
        }
    }

    /// A pivot high below the remembered one makes a lower high.
    pub fn check_lh(&self, signal: &Pivot) -> (r: Option<SwingType>)
        ensures
            r == check_lh_spec(*self, *signal),
    {
        match (signal, self.prev_high) {
            (Pivot::High(high), Some(prev_high)) => if *high < prev_high {
                Some(SwingType::LowerHigh)
            } else {
                None
            },
            _ => None,
        }
    }

    /// A pivot low at or below the remembered one makes a lower low.
    pub fn check_ll(&self, signal: &Pivot) -> (r: Option<SwingType>)
        ensures
            r == check_ll_spec(*self, *signal),
    {
        match (signal, self.prev_low) {
            (Pivot::Low(low), Some(prev_low)) => if *low <= prev_low {
                Some(SwingType::LowerLow)
            } else {
                None
            },
            _ => None,
        }
    }

    /// A pivot low above the remembered one makes a higher low.
    pub fn check_hl(&self, signal: &Pivot) -> (r: Option<SwingType>)
        ensures
            r == check_hl_spec(*self, *signal),
    {
        match (signal, self.prev_low) {
            (Pivot::Low(low), Some(prev_low)) => if *low > prev_low {
                Some(SwingType::HigherLow)
            } else {
                None
            },
            _ => None,
        }
    }

    /// A tall candle at or beyond both remembered values on both sides.
    pub fn check_hhll(&self, signal: &Pivot) -> (r: Option<SwingType>)
        ensures
            r == check_hhll_spec(*self, *signal),
    {
        match (signal, self.prev_high, self.prev_low) {
            (Pivot::HighLow { high, low }, Some(prev_high), Some(prev_low)) => if *high
                >= prev_high && *low <= prev_low {
                Some(SwingType::HigherHighAndLowerLow)
            } else {
                None
            },
            _ => None,
        }
    }

    /// A tall candle whose high is at or above the remembered high while
    /// its low stays above the remembered low.
    pub fn check_hhhl(&self, signal: &Pivot) -> (r: Option<SwingType>)
        ensures
            r == check_hhhl_spec(*self, *signal),
    {
        match (signal, self.prev_high, self.prev_low) {
            (Pivot::HighLow { high, low }, Some(prev_high), Some(prev_low)) => if *high
                >= prev_high && *low > prev_low {
                Some(SwingType::HigherHighAndHigherLow)
            } else {
                None
            },
            _ => None,
        }
    }

    /// A tall candle held strictly inside the remembered high and low.
    pub fn check_lhhl(&self, signal: &Pivot) -> (r: Option<SwingType>)
        ensures
            r == check_lhhl_spec(*self, *signal),
    {
        match (signal, self.prev_high, self.prev_low) {
            (Pivot::HighLow { high, low }, Some(prev_high), Some(prev_low)) => if *high < prev_high
                && *low > prev_low {
                Some(SwingType::LowerHighAndHigherLow)
            } else {
                None
            },
            _ => None,
        }
    }

    /// A tall candle below the remembered high and at or below the
    /// remembered low.
    pub fn check_lhll(&self, signal: &Pivot) -> (r: Option<SwingType>)
        ensures
            r == check_lhll_spec(*self, *signal),
    {
        match (signal, self.prev_high, self.prev_low) {
            (Pivot::HighLow { high, low }, Some(prev_high), Some(prev_low)) => if *high < prev_high
                && *low <= prev_low {
                Some(SwingType::LowerHighAndLowerLow)
            } else {
                None
            },
            _ => None,
        }
    }

    /// Absorbs one pivot: returns its status and moves the state along.
    pub fn next(&mut self, input: &Pivot) -> (r: SwingStatus)
        ensures
            *final(self) == step_state(*old(self), *input),
            r == step_status(*old(self), *input),
    {
        let high = input.high();
        let low = input.low();
        let swing_type = match (high, self.prev_high, low, self.prev_low) {
            (Some(h), Some(ph), Some(l), Some(pl)) => if h >= ph && l <= pl {
                SwingType::HigherHighAndLowerLow
            } else if h >= ph {
                SwingType::HigherHighAndHigherLow
            } else if l <= pl {
                SwingType::LowerHighAndLowerLow
            } else {
                SwingType::LowerHighAndHigherLow
            },
            (Some(h), Some(ph), _, _) => if h >= ph {
                SwingType::HigherHigh
            } else {
                SwingType::LowerHigh
            },
            (_, _, Some(l), Some(pl)) => if l <= pl {
                SwingType::LowerLow
            } else {
                SwingType::HigherLow
            },
            _ => SwingType::Hold,
        };
        match (high, self.prev_high) {
            (Some(h), Some(_)) => {
                self.prev_high = Some(h);
                self.resistance = Some(h);
            },
            (Some(h), None) => {
                self.prev_high = Some(h);
            },
            _ => {},
        }
        match (low, self.prev_low) {
            (Some(l), Some(_)) => {
                self.prev_low = Some(l);
                self.support = Some(l);
            },
            (Some(l), None) => {
                self.prev_low = Some(l);
            },
            _ => {},
        }
        SwingStatus { swing_type, support: self.support, resistance: self.resistance }
    }
}

/// Helper for the rising-high law: once a pivot high is remembered and no
/// low has ever been seen, a rising run of pivot highs yields a higher
/// high at every step, each moving the resistance line to its own value,
/// while support never appears.
proof fn lemma_rising_highs_from(st: SwingStatusIter, ps: Seq<Pivot>)
    requires
        st.prev_low is None,
        st.support is None,
        st.prev_high is Some,
        forall|i: int| 0 <= i < ps.len() ==> (#[trigger] ps[i]) matches Pivot::High(_),
        ps.len() >= 1 ==> st.prev_high->Some_0 <= ps[0]->High_0,
        forall|i: int|
            #![trigger ps[i]]
            0 <= i < ps.len() - 1 ==> ps[i]->High_0 < ps[i + 1]->High_0,
    ensures
        swing_run(st, ps).len() == ps.len(),
        forall|i: int|
            0 <= i < ps.len() ==> swing_run(st, ps)[i] == (SwingStatus {
                swing_type: SwingType::HigherHigh,
                support: None,
                resistance: Some(ps[i]->High_0),
            }),
    decreases ps.len(),
{
    lemma_swing_run_len(st, ps);
    if ps.len() >= 1 {
        let p0 = ps[0];
        let st1 = step_state(st, p0);
        assert(st1.prev_high == Some(p0->High_0));
        assert(st1.prev_low is None && st1.support is None);
        assert(forall|i: int|
            0 <= i < ps.drop_first().len() ==> (#[trigger] ps.drop_first()[i]) matches Pivot::High(
                _,
            ));
        assert(forall|i: int|
            #![trigger ps.drop_first()[i]]
            0 <= i < ps.drop_first().len() - 1 ==> ps.drop_first()[i]->High_0 < ps.drop_first()[i
                + 1]->High_0);
        lemma_rising_highs_from(st1, ps.drop_first());
        lemma_swing_run_len(st1, ps.drop_first());
        assert forall|i: int| 0 <= i < ps.len() implies swing_run(st, ps)[i] == (SwingStatus {
            swing_type: SwingType::HigherHigh,
            support: None,
            resistance: Some(ps[i]->High_0),
        }) by {
            if i == 0 {
                assert(classify(st.prev_high, st.prev_low, p0) == SwingType::HigherHigh);
            } else {
                assert(swing_run(st, ps)[i] == swing_run(st1, ps.drop_first())[i - 1]);
                assert(ps.drop_first()[i - 1] == ps[i]);
            }
        }
    }
}

/// A strictly rising sequence of pivot highs: the first pivot only seeds
/// the classifier and reports a hold; every later pivot reports a higher
/// high; the resistance line equals the latest high from the second pivot
/// onward; and no support line ever appears.
pub proof fn lemma_rising_highs(ps: Seq<Pivot>)
    requires
        ps.len() >= 1,
        forall|i: int| 0 <= i < ps.len() ==> (#[trigger] ps[i]) matches Pivot::High(_),
        forall|i: int|
            #![trigger ps[i]]
            0 <= i < ps.len() - 1 ==> ps[i]->High_0 < ps[i + 1]->High_0,
    ensures
        swing_run(SwingStatusIter::init_spec(), ps).len() == ps.len(),
        swing_run(SwingStatusIter::init_spec(), ps)[0] == (SwingStatus {
            swing_type: SwingType::Hold,
            support: None,
            resistance: None,
        }),
        forall|i: int|
            1 <= i < ps.len() ==> swing_run(SwingStatusIter::init_spec(), ps)[i] == (SwingStatus {
                swing_type: SwingType::HigherHigh,
                support: None,
                resistance: Some(ps[i]->High_0),
            }),
{
    let st = SwingStatusIter::init_spec();
    lemma_swing_run_len(st, ps);
    let p0 = ps[0];
    let st1 = step_state(st, p0);
    assert(step_status(st, p0) == (SwingStatus {
        swing_type: SwingType::Hold,
        support: None,
        resistance: None,
    }));
    assert(forall|i: int|
        0 <= i < ps.drop_first().len() ==> (#[trigger] ps.drop_first()[i]) matches Pivot::High(_));
    assert(forall|i: int|
        #![trigger ps.drop_first()[i]]
        0 <= i < ps.drop_first().len() - 1 ==> ps.drop_first()[i]->High_0 < ps.drop_first()[i
            + 1]->High_0);
    lemma_rising_highs_from(st1, ps.drop_first());
    lemma_swing_run_len(st1, ps.drop_first());
    assert forall|i: int| 1 <= i < ps.len() implies swing_run(st, ps)[i] == (SwingStatus {
        swing_type: SwingType::HigherHigh,
        support: None,
        resistance: Some(ps[i]->High_0),
    }) by {
        assert(swing_run(st, ps)[i] == swing_run(st1, ps.drop_first())[i - 1]);
        assert(ps.drop_first()[i - 1] == ps[i]);
    }
}

/// Runs a fresh classifier over a whole pivot sequence, one status per
/// pivot.
pub fn high_low_swing(pivots: &Vec<Pivot>) -> (r: Vec<SwingStatus>)
    ensures
        r@ == swing_run(SwingStatusIter::init_spec(), pivots@),
        r@.len() == pivots@.len(),
{
    let mut st = SwingStatusIter::new();
    let mut r: Vec<SwingStatus> = Vec::new();
    let mut i: usize = 0;
    proof {
        assert(pivots@.subrange(0, pivots@.len() as int) =~= pivots@);
        assert(r@ + swing_run(st, pivots@) =~= swing_run(SwingStatusIter::init_spec(), pivots@));
        lemma_swing_run_len(SwingStatusIter::init_spec(), pivots@);
    }
    while i < pivots.len()
        invariant
            0 <= i <= pivots@.len(),
            r@ + swing_run(st, pivots@.subrange(i as int, pivots@.len() as int)) == swing_run(
                SwingStatusIter::init_spec(),
                pivots@,
            ),
            r@.len() == i,
        decreases pivots@.len() - i,
    {
        let ghost st0 = st;
        let ghost r0 = r@;
        let ghost rest = pivots@.subrange(i as int, pivots@.len() as int);
        let s = st.next(&pivots[i]);
        r.push(s);
        i += 1;
        proof {
            assert(rest[0] == pivots@[i - 1]);
            assert(rest.drop_first() =~= pivots@.subrange(i as int, pivots@.len() as int));
            assert(swing_run(st0, rest) == seq![step_status(st0, rest[0])] + swing_run(
                step_state(st0, rest[0]),
                rest.drop_first(),
            ));
            assert(r@ =~= r0 + seq![s]);
            assert((r0 + seq![s]) + swing_run(st, rest.drop_first()) =~= r0 + (seq![s] + swing_run(
                st,
                rest.drop_first(),
            )));
        }
    }
    proof {
        assert(pivots@.subrange(pivots@.len() as int, pivots@.len() as int) =~= Seq::<
            Pivot,
        >::empty());
        assert(r@ + Seq::<SwingStatus>::empty() =~= r@);
    }
    r
}

} // verus!

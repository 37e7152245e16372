//! Renko aggregation: a price stream becomes fixed-size "brick" bars.
//!
//! Each brick spans one level, where a price's level is the floor of the
//! price divided by the brick size. The aggregator walks one level at a
//! time toward the level of the most recently consumed price, and filters
//! whipsaws: a brick that reverses the direction of the last emitted brick
//! is swallowed, and the new direction only shows from its second
//! consecutive brick onward.

use vstd::prelude::*;

use vstd::arithmetic::div_mod::{lemma_div_is_ordered, lemma_fundamental_div_mod};
use vstd::arithmetic::mul::lemma_mul_inequality;

use crate::candle::{in_range, Candle, PRICE_LIMIT};
use crate::true_range::abs_diff;

verus! {

#[derive(Clone, Copy, Debug, PartialEq, Eq, Structural)]
pub enum RenkoDirection {
    Up,
    Down,
}

/// One Renko brick. It opens at `level * size` and closes one level away
/// in its direction.
#[derive(Clone, Copy, Debug, PartialEq, Eq, Structural)]
pub struct RenkoCandle {
    /// The floor of the opening price divided by the brick size.
    pub level: i64,
    pub size: i64,
    pub direction: RenkoDirection,
}

impl RenkoCandle {
    /// The brick's prices stay inside the range where the arithmetic on
    /// them is free of overflow.
    pub open spec fn wf(self) -> bool {
        &&& 1 <= self.size <= PRICE_LIMIT
        &&& -2 * (PRICE_LIMIT as int) <= (self.level as int) * (self.size as int) <= 2 * (
        PRICE_LIMIT as int)
    }

    pub open spec fn open_spec(self) -> int {
        (self.level as int) * (self.size as int)
    }

    pub open spec fn close_spec(self) -> int {
        match self.direction {
            RenkoDirection::Up => (self.level as int + 1) * (self.size as int),
            RenkoDirection::Down => (self.level as int - 1) * (self.size as int),
        }
    }

    pub open spec fn high_spec(self) -> int {
        match self.direction {
            RenkoDirection::Up => self.close_spec(),
            RenkoDirection::Down => self.open_spec(),
        }
    }

    pub open spec fn low_spec(self) -> int {
        match self.direction {
            RenkoDirection::Up => self.open_spec(),
            RenkoDirection::Down => self.close_spec(),
        }
    }

    /// The price this brick opened at.
    pub fn open(&self) -> (r: i64)
        requires
            self.wf(),
        ensures
            r as int == self.open_spec(),
    {
        self.level * self.size
    }

    /// The price this brick closed at: one level above or below the open,
    /// by direction.
    pub fn close(&self) -> (r: i64)
        requires
            self.wf(),
        ensures
            r as int == self.close_spec(),
    {
        let o = self.level * self.size;
        proof {
            assert((self.level as int + 1) * (self.size as int) == (self.level as int) * (
            self.size as int) + self.size as int) by (nonlinear_arith);
            assert((self.level as int - 1) * (self.size as int) == (self.level as int) * (
            self.size as int) - self.size as int) by (nonlinear_arith);
        }
        match self.direction {
            RenkoDirection::Up => o + self.size,
            RenkoDirection::Down => o - self.size,
        }
    }

    /// The higher of open and close: the close of an up brick, the open of
    /// a down brick.
    pub fn high(&self) -> (r: i64)
        requires
            self.wf(),
        ensures
            r as int == self.high_spec(),
    {
        match self.direction {
            RenkoDirection::Up => self.close(),
            RenkoDirection::Down => self.open(),
        }
    }

    /// The lower of open and close: the open of an up brick, the close of
    /// a down brick.
    pub fn low(&self) -> (r: i64)
        requires
            self.wf(),
        ensures
            r as int == self.low_spec(),
    {
        match self.direction {
            RenkoDirection::Up => self.open(),
            RenkoDirection::Down => self.close(),
        }
    }

    /// The brick read as an OHLC bar, so that the downstream stages can
    /// run over Renko bricks exactly as over raw candles.
    pub open spec fn candle_spec(self) -> Candle {
        Candle {
            high: self.high_spec() as i64,
            low: self.low_spec() as i64,
            open: self.open_spec() as i64,
            close: self.close_spec() as i64,
        }
    }

    /// The brick as an OHLC bar.
    pub fn candle(&self) -> (c: Candle)
        requires
            self.wf(),
        ensures
            c == self.candle_spec(),
    {
        Candle { high: self.high(), low: self.low(), open: self.open(), close: self.close() }
    }
}

/// The level a price falls on: the floor of the price divided by the brick
/// size.
pub open spec fn level_of(p: int, size: int) -> int {
    p / size
}

/// Floor division of a bounded price by a positive brick size.
fn floor_div(p: i64, size: i64) -> (r: i64)
    requires
        1 <= size <= PRICE_LIMIT,
        in_range(p as int),
    ensures
        r as int == level_of(p as int, size as int),
        -(PRICE_LIMIT as int) <= r as int <= PRICE_LIMIT as int,
        (r as int) * (size as int) <= p as int,
        (p as int - size as int) < (r as int) * (size as int),
{
    proof {
        let pi = p as int;
        let si = size as int;
        let q = pi / si;
        lemma_fundamental_div_mod(pi, si);
        assert(q * si == pi - (pi % si)) by (nonlinear_arith)
            requires
                pi == si * q + (pi % si),
        ;
        assert(-(PRICE_LIMIT as int) <= q <= PRICE_LIMIT as int) by (nonlinear_arith)
            requires
                1 <= si,
                -(PRICE_LIMIT as int) <= pi <= PRICE_LIMIT as int,
                q * si <= pi,
                pi - si < q * si,
                0 < PRICE_LIMIT as int,
        ;
    }
    p.checked_div_euclid(size).unwrap()
}

/// The brick emitted while standing on `level`, moving in `direction`.
pub open spec fn brick(level: int, size: int, direction: RenkoDirection) -> RenkoCandle {
    RenkoCandle { level: level as i64, size: size as i64, direction }
}

/// One level-by-level walk from `start` to `target`. Each step produces a
/// candidate brick at the current level; the candidate is emitted unless it
/// reverses the direction of the last candidate produced (`dir`), and the
/// last candidate's direction is remembered either way. Returns the bricks
/// emitted and the direction state after the walk.
pub open spec fn walk(start: int, target: int, dir: Option<RenkoDirection>, size: int) -> (
    Seq<RenkoCandle>,
    Option<RenkoDirection>,
)
    decreases abs_diff(target, start),
{
    if start == target {
        (Seq::<RenkoCandle>::empty(), dir)
    } else {
        let d = if target > start {
            RenkoDirection::Up
        } else {
            RenkoDirection::Down
        };
        let step: int = if target > start {
            1
        } else {
            -1
        };
        let rest = walk(start + step, target, Some(d), size);
        let emitted = if dir is None || dir == Some(d) {
            seq![brick(start, size, d)]
        } else {
            Seq::<RenkoCandle>::empty()
        };
        (emitted + rest.0, rest.1)
    }
}

/// The bricks produced by consuming one target level after another,
/// starting each walk where the previous one ended.
pub open spec fn renko_from(
    levels: Seq<int>,
    start: int,
    dir: Option<RenkoDirection>,
    size: int,
) -> Seq<RenkoCandle>
    decreases levels.len(),
{
    if levels.len() == 0 {
        Seq::<RenkoCandle>::empty()
    } else {
        let w = walk(start, levels[0], dir, size);
        w.0 + renko_from(levels.drop_first(), levels[0], w.1, size)
    }
}

/// The aggregator's state — the level the next brick would open from and
/// the direction of the last candidate — after consuming the given target
/// levels.
pub open spec fn state_after(
    levels: Seq<int>,
    start: int,
    dir: Option<RenkoDirection>,
    size: int,
) -> (int, Option<RenkoDirection>)
    decreases levels.len(),
{
    if levels.len() == 0 {
        (start, dir)
    } else {
        state_after(levels.drop_first(), levels[0], walk(start, levels[0], dir, size).1, size)
    }
}

/// The levels of a price sequence.
pub open spec fn levels_of(prices: Seq<i64>, size: int) -> Seq<int> {
    prices.map_values(|p: i64| level_of(p as int, size))
}

/// Everything the aggregator emits for a price stream: the first price
/// seeds the starting level, and every later price is a target level to
/// walk to.
pub open spec fn renko_spec(prices: Seq<i64>, size: int) -> Seq<RenkoCandle> {
    if prices.len() == 0 {
        Seq::<RenkoCandle>::empty()
    } else {
        renko_from(levels_of(prices, size).drop_first(), level_of(prices[0] as int, size), None, size)
    }
}

/// Consuming one more target level appends that target's walk, started
/// from the state the earlier levels left behind.
proof fn lemma_renko_from_snoc(
    levels: Seq<int>,
    t: int,
    start: int,
    dir: Option<RenkoDirection>,
    size: int,
)
    ensures
        renko_from(levels.push(t), start, dir, size) == renko_from(levels, start, dir, size)
            + walk(state_after(levels, start, dir, size).0, t, state_after(levels, start, dir, size).1, size).0,
        state_after(levels.push(t), start, dir, size).0 == t,
        state_after(levels.push(t), start, dir, size).1 == walk(
            state_after(levels, start, dir, size).0,
            t,
            state_after(levels, start, dir, size).1,
            size,
        ).1,
    decreases levels.len(),
{
    if levels.len() == 0 {
        assert(levels.push(t)[0] == t);
        assert(levels.push(t).drop_first() =~= Seq::<int>::empty());
        let w = walk(start, t, dir, size);
        assert(renko_from(Seq::<int>::empty(), t, w.1, size) == Seq::<RenkoCandle>::empty());
        assert(state_after(Seq::<int>::empty(), t, w.1, size) == (t, w.1));
        assert(renko_from(levels.push(t), start, dir, size) =~= w.0);
        assert(renko_from(levels, start, dir, size) + w.0 =~= w.0);
    } else {
        assert(levels.push(t)[0] == levels[0]);
        assert(levels.push(t).drop_first() =~= levels.drop_first().push(t));
        let w = walk(start, levels[0], dir, size);
        lemma_renko_from_snoc(levels.drop_first(), t, levels[0], w.1, size);
        assert(renko_from(levels.push(t), start, dir, size) =~= renko_from(levels, start, dir, size)
            + walk(state_after(levels, start, dir, size).0, t, state_after(levels, start, dir, size).1, size).0);
    }
}

/// Turns a price stream into Renko bricks with the given brick size.
/// A brick size of zero or less is a caller error and is excluded here.
pub fn renko(prices: &Vec<i64>, size: i64) -> (out: Vec<RenkoCandle>)
    requires
        1 <= size <= PRICE_LIMIT,
        forall|i: int| 0 <= i < prices@.len() ==> in_range(#[trigger] prices@[i] as int),
    ensures
        out@ == renko_spec(prices@, size as int),
        forall|i: int| 0 <= i < out@.len() ==> (#[trigger] out@[i]).wf(),
{
    let mut out: Vec<RenkoCandle> = Vec::new();
    if prices.len() == 0 {
        return out;
    }
    let ghost sz = size as int;
    let ghost lv = levels_of(prices@, sz);
    let mut start: i64 = floor_div(prices[0], size);
    let ghost l0 = start as int;
    let mut dir: Option<RenkoDirection> = None;
    let mut i: usize = 1;
    proof {
        assert(lv.subrange(1, 1) =~= Seq::<int>::empty());
    }
    while i < prices.len()
        invariant
            1 <= i <= prices@.len(),
            1 <= size <= PRICE_LIMIT,
            forall|k: int| 0 <= k < prices@.len() ==> in_range(#[trigger] prices@[k] as int),
            sz == size as int,
            lv == levels_of(prices@, sz),
            l0 == level_of(prices@[0] as int, sz),
            out@ == renko_from(lv.subrange(1, i as int), l0, None, sz),
            start as int == state_after(lv.subrange(1, i as int), l0, None, sz).0,
            dir == state_after(lv.subrange(1, i as int), l0, None, sz).1,
            -2 * (PRICE_LIMIT as int) <= (start as int) * sz <= 2 * (PRICE_LIMIT as int),
            forall|k: int| 0 <= k < out@.len() ==> (#[trigger] out@[k]).wf(),
        decreases prices@.len() - i,
    {
        let target = floor_div(prices[i], size);
        proof {
            assert(lv[i as int] == level_of(prices@[i as int] as int, sz));
            assert(lv.subrange(1, (i + 1) as int) =~= lv.subrange(1, i as int).push(lv[i as int]));
            lemma_renko_from_snoc(lv.subrange(1, i as int), target as int, l0, None, sz);
            assert(renko_from(lv.subrange(1, (i + 1) as int), l0, None, sz) =~= out@ + walk(
                start as int,
                target as int,
                dir,
                sz,
            ).0);
        }
        while start != target
            invariant
                1 <= size <= PRICE_LIMIT,
                sz == size as int,
                renko_from(lv.subrange(1, (i + 1) as int), l0, None, sz) == out@ + walk(
                    start as int,
                    target as int,
                    dir,
                    sz,
                ).0,
                state_after(lv.subrange(1, (i + 1) as int), l0, None, sz).0 == target as int,
                state_after(lv.subrange(1, (i + 1) as int), l0, None, sz).1 == walk(
                    start as int,
                    target as int,
                    dir,
                    sz,
                ).1,
                -2 * (PRICE_LIMIT as int) <= (start as int) * sz <= 2 * (PRICE_LIMIT as int),
                -2 * (PRICE_LIMIT as int) <= (target as int) * sz <= 2 * (PRICE_LIMIT as int),
                forall|k: int| 0 <= k < out@.len() ==> (#[trigger] out@[k]).wf(),
            decreases abs_diff(target as int, start as int),
        {
            proof {
                assert(-2 * (PRICE_LIMIT as int) <= start as int <= 2 * (PRICE_LIMIT as int))
                    by (nonlinear_arith)
                    requires
                        1 <= sz,
                        -2 * (PRICE_LIMIT as int) <= (start as int) * sz <= 2 * (PRICE_LIMIT as int),
                        0 < PRICE_LIMIT as int,
                ;
            }
            let ghost s0 = start as int;
            let ghost d0 = dir;
            let up = target > start;
            let d = if up {
                RenkoDirection::Up
            } else {
                RenkoDirection::Down
            };
            let emit = match dir {
                Option::None => true,
                Option::Some(last) => last == d,
            };
            let cand = RenkoCandle { level: start, size, direction: d };
            let ghost out_before = out@;
            proof {
                // the stepped-to level stays between start and target, so
                // its scaled price keeps the same bounds
                if up {
                    lemma_mul_inequality(s0 + 1, target as int, sz);
                    assert((s0 + 1) * sz == s0 * sz + sz) by (nonlinear_arith);
                } else {
                    lemma_mul_inequality(target as int, s0 - 1, sz);
                    assert((s0 - 1) * sz == s0 * sz - sz) by (nonlinear_arith);
                }
                assert(cand.wf());
            }
            if emit {
                out.push(cand);
            }
            dir = Some(d);
            start = if up {
                start + 1
            } else {
                start - 1
            };
            proof {
                let w0 = walk(s0, target as int, d0, sz);
                assert(w0.0 == (if d0 is None || d0 == Some(d) {
                    seq![brick(s0, sz, d)]
                } else {
                    Seq::<RenkoCandle>::empty()
                }) + walk(start as int, target as int, Some(d), sz).0);
                assert(brick(s0, sz, d) == cand);
                if emit {
                    assert(out@ =~= out_before + seq![cand]);
                    assert(out_before + (seq![cand] + walk(start as int, target as int, dir, sz).0)
                        =~= (out_before + seq![cand]) + walk(start as int, target as int, dir, sz).0);
                } else {
                    assert(out_before + (Seq::<RenkoCandle>::empty() + walk(
                        start as int,
                        target as int,
                        dir,
                        sz,
                    ).0) =~= out_before + walk(start as int, target as int, dir, sz).0);
                }
                assert(out@ + walk(start as int, target as int, dir, sz).0 == renko_from(
                    lv.subrange(1, (i + 1) as int),
                    l0,
                    None,
                    sz,
                ));
            }
        }
        proof {
            assert(walk(start as int, target as int, dir, sz).0 =~= Seq::<RenkoCandle>::empty());
            assert(out@ + Seq::<RenkoCandle>::empty() =~= out@);
        }
        i += 1;
    }
    proof {
        assert(lv.subrange(1, prices@.len() as int) =~= lv.drop_first());
    }
    out
}

/// A walk that only climbs emits every level from `start` up to one below
/// `target` as an Up brick, as long as it is not entered moving down.
proof fn lemma_walk_up(start: int, target: int, dir: Option<RenkoDirection>, size: int)
    requires
        start <= target,
        dir is None || dir == Some(RenkoDirection::Up),
    ensures
        walk(start, target, dir, size).0.len() == target - start,
        forall|k: int|
            0 <= k < target - start ==> walk(start, target, dir, size).0[k] == brick(
                start + k,
                size,
                RenkoDirection::Up,
            ),
        walk(start, target, dir, size).1 == (if start == target {
            dir
        } else {
            Some(RenkoDirection::Up)
        }),
    decreases target - start,
{
    if start < target {
        lemma_walk_up(start + 1, target, Some(RenkoDirection::Up), size);
        assert(walk(start, target, dir, size).0 =~= seq![brick(start, size, RenkoDirection::Up)]
            + walk(start + 1, target, Some(RenkoDirection::Up), size).0);
    }
}

/// Consuming a monotone rising run of target levels emits one Up brick per
/// level from `start` up to one below the last target.
proof fn lemma_renko_from_up(levels: Seq<int>, start: int, dir: Option<RenkoDirection>, size: int)
    requires
        levels.len() >= 1,
        start <= levels[0],
        forall|a: int, b: int|
            #![trigger levels[a], levels[b]]
            0 <= a <= b < levels.len() ==> levels[a] <= levels[b],
        dir is None || dir == Some(RenkoDirection::Up),
    ensures
        renko_from(levels, start, dir, size).len() == levels.last() - start,
        forall|k: int|
            0 <= k < levels.last() - start ==> renko_from(levels, start, dir, size)[k] == brick(
                start + k,
                size,
                RenkoDirection::Up,
            ),
    decreases levels.len(),
{
    let w = walk(start, levels[0], dir, size);
    lemma_walk_up(start, levels[0], dir, size);
    if levels.len() == 1 {
        assert(levels.drop_first() =~= Seq::<int>::empty());
        assert(renko_from(Seq::<int>::empty(), levels[0], w.1, size) == Seq::<
            RenkoCandle,
        >::empty());
        assert(renko_from(levels, start, dir, size) =~= w.0);
    } else {
        assert(levels.drop_first()[0] == levels[1]);
        assert(levels[0] <= levels[1]);
        assert(w.1 is None || w.1 == Some(RenkoDirection::Up));
        assert(forall|a: int, b: int|
            #![trigger levels.drop_first()[a], levels.drop_first()[b]]
            0 <= a <= b < levels.drop_first().len() ==> levels.drop_first()[a]
                <= levels.drop_first()[b]);
        lemma_renko_from_up(levels.drop_first(), levels[0], w.1, size);
        assert(levels.drop_first().last() == levels.last());
        assert(renko_from(levels, start, dir, size) == w.0 + renko_from(
            levels.drop_first(),
            levels[0],
            w.1,
            size,
        ));
    }
}

/// Over a monotone rising price run the aggregator emits exactly one Up
/// brick per level crossed: consecutive levels, starting at the first
/// price's level and ending one below the last price's level.
pub proof fn lemma_renko_monotone_up(prices: Seq<i64>, size: int)
    requires
        1 <= size,
        prices.len() >= 1,
        forall|a: int, b: int|
            #![trigger prices[a], prices[b]]
            0 <= a <= b < prices.len() ==> prices[a] <= prices[b],
    ensures
        renko_spec(prices, size).len() == level_of(prices.last() as int, size) - level_of(
            prices[0] as int,
            size,
        ),
        forall|k: int|
            0 <= k < renko_spec(prices, size).len() ==> renko_spec(prices, size)[k] == brick(
                level_of(prices[0] as int, size) + k,
                size,
                RenkoDirection::Up,
            ),
{
    let lv = levels_of(prices, size);
    assert forall|a: int, b: int|
        #![trigger lv[a], lv[b]]
        0 <= a <= b < lv.len() implies lv[a] <= lv[b] by {
        lemma_div_is_ordered(prices[a] as int, prices[b] as int, size);
    }
    if prices.len() == 1 {
        assert(lv.drop_first() =~= Seq::<int>::empty());
        assert(renko_spec(prices, size) == Seq::<RenkoCandle>::empty());
    } else {
        assert(lv.drop_first()[0] == lv[1]);
        assert forall|a: int, b: int|
            #![trigger lv.drop_first()[a], lv.drop_first()[b]]
            0 <= a <= b < lv.drop_first().len() implies lv.drop_first()[a]
            <= lv.drop_first()[b] by {
            assert(lv.drop_first()[a] == lv[a + 1]);
            assert(lv.drop_first()[b] == lv[b + 1]);
        }
        lemma_renko_from_up(lv.drop_first(), lv[0], None, size);
        assert(lv.drop_first().last() == lv[prices.len() - 1]);
        assert(lv[prices.len() - 1] == level_of(prices.last() as int, size));
    }
}

} // verus!

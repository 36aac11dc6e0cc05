//! Unit-safe temperatures, temperature differences and rates of change.
//!
//! Every real quantity crosses this interface as a whole number of
//! thousandths: millidegrees, thousandths of a second or of a minute,
//! thousandths of a weight.
//!
//! Inside, a temperature is a whole number of *ticks*. One tick is a ninth of
//! a millidegree Celsius, which is a fifth of a millidegree Fahrenheit, so
//! every whole millidegree of either scale is a whole number of ticks and
//! reading a value back in the scale it was given in loses nothing. Zero
//! ticks is 0 °C.
//!
//! A rate is a whole number of *rate ticks*. One rate tick is 1/108 of a
//! millidegree Celsius per second, which is a millidegree Fahrenheit per
//! minute; a temperature tick per second is twelve of them.

use vstd::prelude::*;
use crate::rounding::{
    lemma_product_bound, lemma_round_div_between, lemma_round_div_bound, lemma_round_div_error,
    round_div, round_div_exec, saturate, saturate_exec,
};
use core::cmp::Ordering;
use vstd::std_specs::cmp::PartialOrdSpecImpl;

verus! {

/// Ticks in a millidegree Celsius.
pub const TICKS_PER_MILLI_CELSIUS: i64 = 9;

/// Ticks in a millidegree Fahrenheit.
pub const TICKS_PER_MILLI_FAHRENHEIT: i64 = 5;

/// The freezing point of water, 0 °C, in millidegrees Fahrenheit.
pub const FREEZING_MILLI_FAHRENHEIT: i64 = 32_000;

/// The coldest temperature there is a value for: `i32::MIN` millidegrees Celsius.
pub const TEMPERATURE_MIN_TICKS: i64 = -19_327_352_832;

/// The hottest temperature there is a value for: `i32::MAX` millidegrees Celsius.
pub const TEMPERATURE_MAX_TICKS: i64 = 19_327_352_823;

/// The largest difference, either way, between two temperatures.
pub const DELTA_MAX_TICKS: i64 = 38_654_705_655;

/// Rate ticks in a millidegree Celsius per second.
pub const RATE_TICKS_PER_MILLI_CELSIUS_PER_SECOND: i64 = 108;

/// Rate ticks in a millidegree Fahrenheit per second.
pub const RATE_TICKS_PER_MILLI_FAHRENHEIT_PER_SECOND: i64 = 60;

/// Rate ticks of one temperature tick gained in one thousandth of a second.
pub const RATE_TICKS_PER_TICK_PER_MILLISECOND: i64 = 12_000;

/// Rate ticks of one temperature tick gained in one thousandth of a minute.
pub const RATE_TICKS_PER_TICK_PER_MILLIMINUTE: i64 = 200;

/// The thousandths in a whole.
pub const THOUSANDTHS: i64 = 1_000;

/// The ticks of `c` millidegrees Celsius.
pub open spec fn ticks_of_celsius(c: int) -> int {
    9 * c
}

/// The ticks of `f` millidegrees Fahrenheit.
pub open spec fn ticks_of_fahrenheit(f: int) -> int {
    5 * (f - 32_000)
}

/// The ticks of a difference of `f` millidegrees Fahrenheit.
pub open spec fn ticks_of_fahrenheit_delta(f: int) -> int {
    5 * f
}

/// The whole millidegrees Celsius nearest to `ticks`, as a temperature or as
/// a difference.
pub open spec fn celsius_of_ticks(ticks: int) -> int {
    round_div(ticks, 9)
}

/// The whole millidegrees Fahrenheit nearest to the temperature of `ticks`.
pub open spec fn fahrenheit_of_ticks(ticks: int) -> int {
    round_div(ticks, 5) + 32_000
}

/// The whole millidegrees Fahrenheit nearest to a difference of `ticks`.
pub open spec fn fahrenheit_of_delta_ticks(ticks: int) -> int {
    round_div(ticks, 5)
}

/// The rate ticks nearest to a change of `delta` temperature ticks in
/// `seconds` thousandths of a second.
pub open spec fn rate_per_second(delta: int, seconds: int) -> int
    recommends
        seconds > 0,
{
    round_div(delta * 12_000, seconds)
}

/// The rate ticks nearest to a change of `delta` temperature ticks in
/// `minutes` thousandths of a minute.
pub open spec fn rate_per_minute(delta: int, minutes: int) -> int
    recommends
        minutes > 0,
{
    round_div(delta * 200, minutes)
}

/// The whole millidegrees Celsius per second nearest to `rate` rate ticks.
pub open spec fn celsius_per_second_of(rate: int) -> int {
    round_div(rate, 108)
}

/// The whole millidegrees Fahrenheit per second nearest to `rate` rate ticks.
pub open spec fn fahrenheit_per_second_of(rate: int) -> int {
    round_div(rate, 60)
}

/// `factor` thousandths of `rate`, to the nearest rate tick, held to `i64`.
pub open spec fn scaled_rate(factor: int, rate: int) -> int {
    saturate(round_div(factor * rate, 1_000))
}

/// The exponentially weighted blend of a new slope with the estimate so
/// far: `alpha` thousandths of `instantaneous` and the rest of `previous`,
/// to the nearest rate tick, held to `i64`.
pub open spec fn ema_blend(alpha: int, instantaneous: int, previous: int) -> int {
    saturate(round_div(alpha * instantaneous + (1_000 - alpha) * previous, 1_000))
}

/// An absolute temperature.
#[derive(Debug, Clone, Copy, PartialEq, Eq, Structural)]
pub struct Temperature {
    ticks: i64,
}

impl View for Temperature {
    type V = int;

    /// The temperature in ticks above 0 °C.
    closed spec fn view(&self) -> int {
        self.ticks as int
    }
}

impl Temperature {
    /// Every temperature lies in the range that `from_celsius` covers.
    #[verifier::type_invariant]
    pub open spec fn wf(self) -> bool {
        TEMPERATURE_MIN_TICKS <= self@ <= TEMPERATURE_MAX_TICKS
    }

    /// The temperature of `c` millidegrees Celsius.
    pub fn from_celsius(c: i32) -> (t: Temperature)
        ensures
            t@ == ticks_of_celsius(c as int),
            t.wf(),
    {
        Temperature { ticks: TICKS_PER_MILLI_CELSIUS * (c as i64) }
    }

    /// The temperature of `f` millidegrees Fahrenheit.
    pub fn from_fahrenheit(f: i32) -> (t: Temperature)
        ensures
            t@ == ticks_of_fahrenheit(f as int),
            t.wf(),
    {
        Temperature { ticks: TICKS_PER_MILLI_FAHRENHEIT * (f as i64 - FREEZING_MILLI_FAHRENHEIT) }
    }

    /// The temperature in millidegrees Celsius, to the nearest.
    pub fn celsius(&self) -> (c: i64)
        ensures
            c == celsius_of_ticks(self@),
    {
        proof {
            use_type_invariant(self);
            lemma_round_div_bound(self@, TICKS_PER_MILLI_CELSIUS as int);
        }
        round_div_exec(self.ticks as i128, TICKS_PER_MILLI_CELSIUS as i128) as i64
    }

    /// The temperature in millidegrees Fahrenheit, to the nearest.
    pub fn fahrenheit(&self) -> (f: i64)
        ensures
            f == fahrenheit_of_ticks(self@),
    {
        proof {
            use_type_invariant(self);
            lemma_round_div_bound(self@, TICKS_PER_MILLI_FAHRENHEIT as int);
        }
        round_div_exec(self.ticks as i128, TICKS_PER_MILLI_FAHRENHEIT as i128) as i64
            + FREEZING_MILLI_FAHRENHEIT
    }

    /// How far `self` lies above `other`.
    pub fn sub(self, other: Temperature) -> (d: TemperatureDelta)
        ensures
            d@ == self@ - other@,
            d.wf(),
    {
        proof {
            use_type_invariant(self);
            use_type_invariant(other);
        }
        TemperatureDelta { ticks: self.ticks - other.ticks }
    }
}

impl PartialOrd for Temperature {
    /// Temperatures are ordered from cold to hot.
    fn partial_cmp(&self, other: &Temperature) -> (r: Option<Ordering>) {
        if self.ticks < other.ticks {
            Some(Ordering::Less)
        } else if self.ticks > other.ticks {
            Some(Ordering::Greater)
        } else {
            Some(Ordering::Equal)
        }
    }
}

impl PartialOrdSpecImpl for Temperature {
    open spec fn obeys_partial_cmp_spec() -> bool {
        true
    }

    open spec fn partial_cmp_spec(&self, other: &Temperature) -> Option<Ordering> {
        if self@ < other@ {
            Some(Ordering::Less)
        } else if self@ > other@ {
            Some(Ordering::Greater)
        } else {
            Some(Ordering::Equal)
        }
    }
}

/// The difference between two temperatures.
#[derive(Debug, Clone, Copy, PartialEq, Eq, Structural)]
pub struct TemperatureDelta {
    ticks: i64,
}

impl View for TemperatureDelta {
    type V = int;

    /// The difference in ticks, positive for a rise.
    closed spec fn view(&self) -> int {
        self.ticks as int
    }
}

impl TemperatureDelta {
    /// Every difference is one that two temperatures can have.
    #[verifier::type_invariant]
    pub open spec fn wf(self) -> bool {
        -DELTA_MAX_TICKS <= self@ <= DELTA_MAX_TICKS
    }

    /// A difference of `c` millidegrees Celsius.
    pub fn from_celsius(c: i32) -> (d: TemperatureDelta)
        ensures
            d@ == ticks_of_celsius(c as int),
            d.wf(),
    {
        TemperatureDelta { ticks: TICKS_PER_MILLI_CELSIUS * (c as i64) }
    }

    /// A difference of `f` millidegrees Fahrenheit. A difference has no
    /// offset between the scales.
    pub fn from_fahrenheit(f: i32) -> (d: TemperatureDelta)
        ensures
            d@ == ticks_of_fahrenheit_delta(f as int),
            d.wf(),
    {
        TemperatureDelta { ticks: TICKS_PER_MILLI_FAHRENHEIT * (f as i64) }
    }

    /// The difference in millidegrees Celsius, to the nearest.
    pub fn celsius(&self) -> (c: i64)
        ensures
            c == celsius_of_ticks(self@),
    {
        proof {
            use_type_invariant(self);
            lemma_round_div_bound(self@, TICKS_PER_MILLI_CELSIUS as int);
        }
        round_div_exec(self.ticks as i128, TICKS_PER_MILLI_CELSIUS as i128) as i64
    }

    /// The difference in millidegrees Fahrenheit, to the nearest.
    pub fn fahrenheit(&self) -> (f: i64)
        ensures
            f == fahrenheit_of_delta_ticks(self@),
    {
        proof {
            use_type_invariant(self);
            lemma_round_div_bound(self@, TICKS_PER_MILLI_FAHRENHEIT as int);
        }
        round_div_exec(self.ticks as i128, TICKS_PER_MILLI_FAHRENHEIT as i128) as i64
    }

    /// The rate at which this difference arises in `seconds` thousandths of
    /// a second. No time, no rate.
    pub fn div(self, seconds: u64) -> (r: Option<RateOfChange>)
        ensures
            seconds == 0 <==> r is None,
            r matches Some(rate) ==> rate@ == rate_per_second(self@, seconds as int),
    {
        if seconds == 0 {
            return None;
        }
        proof {
            use_type_invariant(self);
            lemma_round_div_bound(self@ * RATE_TICKS_PER_TICK_PER_MILLISECOND, seconds as int);
        }
        let gained: i64 = self.ticks * RATE_TICKS_PER_TICK_PER_MILLISECOND;
        let units = round_div_exec(gained as i128, seconds as i128);
        Some(RateOfChange { units: units as i64 })
    }
}

impl PartialOrd for TemperatureDelta {
    /// Differences are ordered from the steepest fall to the steepest rise.
    fn partial_cmp(&self, other: &TemperatureDelta) -> (r: Option<Ordering>) {
        if self.ticks < other.ticks {
            Some(Ordering::Less)
        } else if self.ticks > other.ticks {
            Some(Ordering::Greater)
        } else {
            Some(Ordering::Equal)
        }
    }
}

impl PartialOrdSpecImpl for TemperatureDelta {
    open spec fn obeys_partial_cmp_spec() -> bool {
        true
    }

    open spec fn partial_cmp_spec(&self, other: &TemperatureDelta) -> Option<Ordering> {
        if self@ < other@ {
            Some(Ordering::Less)
        } else if self@ > other@ {
            Some(Ordering::Greater)
        } else {
            Some(Ordering::Equal)
        }
    }
}

/// A rate of change of temperature, positive while it rises.
#[derive(Debug, Clone, Copy, PartialEq, Eq, Structural)]
pub struct RateOfChange {
    units: i64,
}

impl View for RateOfChange {
    type V = int;

    /// The rate in rate ticks.
    closed spec fn view(&self) -> int {
        self.units as int
    }
}

impl RateOfChange {
    /// The rate of a change of `delta` in `seconds` thousandths of a second.
    /// No time, no rate.
    pub fn new_per_second(delta: TemperatureDelta, seconds: u64) -> (r: Option<RateOfChange>)
        ensures
            seconds == 0 <==> r is None,
            r matches Some(rate) ==> rate@ == rate_per_second(delta@, seconds as int),
    {
        delta.div(seconds)
    }

    /// The rate of a change of `delta` in `minutes` thousandths of a minute.
    /// No time, no rate.
    pub fn new_per_minute(delta: TemperatureDelta, minutes: u64) -> (r: Option<RateOfChange>)
        ensures
            minutes == 0 <==> r is None,
            r matches Some(rate) ==> rate@ == rate_per_minute(delta@, minutes as int),
    {
        if minutes == 0 {
            return None;
        }
        proof {
            use_type_invariant(delta);
            lemma_round_div_bound(delta@ * RATE_TICKS_PER_TICK_PER_MILLIMINUTE, minutes as int);
        }
        let gained: i64 = delta.ticks * RATE_TICKS_PER_TICK_PER_MILLIMINUTE;
        let units = round_div_exec(gained as i128, minutes as i128);
        Some(RateOfChange { units: units as i64 })
    }

    /// The rate in millidegrees Celsius per second, to the nearest.
    pub fn celsius_per_second(&self) -> (c: i64)
        ensures
            c == celsius_per_second_of(self@),
    {
        proof {
            lemma_round_div_bound(self@, RATE_TICKS_PER_MILLI_CELSIUS_PER_SECOND as int);
        }
        round_div_exec(self.units as i128, RATE_TICKS_PER_MILLI_CELSIUS_PER_SECOND as i128) as i64
    }

    /// The rate in millidegrees Fahrenheit per second, to the nearest.
    pub fn fahrenheit_per_second(&self) -> (f: i64)
        ensures
            f == fahrenheit_per_second_of(self@),
    {
        proof {
            lemma_round_div_bound(self@, RATE_TICKS_PER_MILLI_FAHRENHEIT_PER_SECOND as int);
        }
        round_div_exec(
            self.units as i128,
            RATE_TICKS_PER_MILLI_FAHRENHEIT_PER_SECOND as i128,
        ) as i64
    }

    /// The rate in millidegrees Fahrenheit per minute: the rate tick itself.
    pub fn fahrenheit_per_minute(&self) -> (f: i64)
        ensures
            f == self@,
    {
        self.units
    }

    /// `factor` thousandths of this rate. A product beyond `i64` stops at
    /// the bound it passed.
    pub fn mul(self, factor: i32) -> (r: RateOfChange)
        ensures
            r@ == scaled_rate(factor as int, self@),
    {
        proof {
            lemma_product_bound(factor as int, self@, 0x8000_0000, 0x8000_0000_0000_0000);
        }
        let product: i128 = (factor as i128) * (self.units as i128);
        RateOfChange { units: saturate_exec(round_div_exec(product, THOUSANDTHS as i128)) }
    }

    /// The sum of two rates. A sum beyond `i64` stops at the bound it passed.
    pub fn add(self, other: RateOfChange) -> (r: RateOfChange)
        ensures
            r@ == saturate(self@ + other@),
    {
        RateOfChange { units: saturate_exec(self.units as i128 + other.units as i128) }
    }

    /// The difference of two rates. A difference beyond `i64` stops at the
    /// bound it passed.
    pub fn sub(self, other: RateOfChange) -> (r: RateOfChange)
        ensures
            r@ == saturate(self@ - other@),
    {
        RateOfChange { units: saturate_exec(self.units as i128 - other.units as i128) }
    }

    /// Blends `instantaneous`, the slope just seen, into this estimate with
    /// a weight of `alpha` thousandths.
    pub fn blend(self, instantaneous: RateOfChange, alpha: i32) -> (r: RateOfChange)
        ensures
            r@ == ema_blend(alpha as int, instantaneous@, self@),
    {
        proof {
            lemma_product_bound(alpha as int, instantaneous@, 0x8000_0000, 0x8000_0000_0000_0000);
            lemma_product_bound(
                THOUSANDTHS - alpha,
                self@,
                0x1_0000_0000,
                0x8000_0000_0000_0000,
            );
        }
        let fresh: i128 = (alpha as i128) * (instantaneous.units as i128);
        let kept: i128 = (THOUSANDTHS as i128 - alpha as i128) * (self.units as i128);
        RateOfChange { units: saturate_exec(round_div_exec(fresh + kept, THOUSANDTHS as i128)) }
    }
}

impl PartialOrd for RateOfChange {
    /// Rates are ordered from the steepest fall to the steepest rise.
    fn partial_cmp(&self, other: &RateOfChange) -> (r: Option<Ordering>) {
        if self.units < other.units {
            Some(Ordering::Less)
        } else if self.units > other.units {
            Some(Ordering::Greater)
        } else {
            Some(Ordering::Equal)
        }
    }
}

impl PartialOrdSpecImpl for RateOfChange {
    open spec fn obeys_partial_cmp_spec() -> bool {
        true
    }

    open spec fn partial_cmp_spec(&self, other: &RateOfChange) -> Option<Ordering> {
        if self@ < other@ {
            Some(Ordering::Less)
        } else if self@ > other@ {
            Some(Ordering::Greater)
        } else {
            Some(Ordering::Equal)
        }
    }
}

/// A temperature given in millidegrees Celsius reads back in millidegrees
/// Celsius as the number it was given as, and so does a difference.
pub proof fn lemma_celsius_round_trip(c: int)
    ensures
        celsius_of_ticks(ticks_of_celsius(c)) == c,
{
}

/// A temperature given in millidegrees Fahrenheit reads back in millidegrees
/// Fahrenheit as the number it was given as, and so does a difference.
pub proof fn lemma_fahrenheit_round_trip(f: int)
    ensures
        fahrenheit_of_ticks(ticks_of_fahrenheit(f)) == f,
        fahrenheit_of_delta_ticks(ticks_of_fahrenheit_delta(f)) == f,
{
}

/// Temperatures compare as the numbers they were given as do.
pub proof fn lemma_scales_keep_order(a: int, b: int)
    ensures
        a < b <==> ticks_of_celsius(a) < ticks_of_celsius(b),
        a < b <==> ticks_of_fahrenheit(a) < ticks_of_fahrenheit(b),
{
}

/// With a weight from nothing to the whole, the blend of two rates lies
/// between them and is not cut off at a bound of `i64`; the blend of a rate
/// with itself is that rate.
pub proof fn lemma_blend_between(alpha: int, instantaneous: int, previous: int)
    requires
        0 <= alpha <= 1_000,
        i64::MIN <= instantaneous <= i64::MAX,
        i64::MIN <= previous <= i64::MAX,
    ensures
        instantaneous <= previous ==> instantaneous <= ema_blend(alpha, instantaneous, previous)
            <= previous,
        previous <= instantaneous ==> previous <= ema_blend(alpha, instantaneous, previous)
            <= instantaneous,
        ema_blend(alpha, instantaneous, previous) == round_div(
            alpha * instantaneous + (1_000 - alpha) * previous,
            1_000,
        ),
{
    let lo = if instantaneous <= previous {
        instantaneous
    } else {
        previous
    };
    let hi = if instantaneous <= previous {
        previous
    } else {
        instantaneous
    };
    let weighted = alpha * instantaneous + (1_000 - alpha) * previous;
    assert(lo * 1_000 <= weighted <= hi * 1_000) by (nonlinear_arith)
        requires
            0 <= alpha <= 1_000,
            lo <= instantaneous <= hi,
            lo <= previous <= hi,
            weighted == alpha * instantaneous + (1_000 - alpha) * previous,
    ;
    lemma_round_div_between(weighted, 1_000, lo, hi);
}

/// The whole weight takes the new slope, no weight keeps the rate so far.
pub proof fn lemma_blend_extremes(instantaneous: int, previous: int)
    requires
        i64::MIN <= instantaneous <= i64::MAX,
        i64::MIN <= previous <= i64::MAX,
    ensures
        ema_blend(1_000, instantaneous, previous) == instantaneous,
        ema_blend(0, instantaneous, previous) == previous,
{
}

/// With a weight from nothing to the whole, the blend is what scaling the
/// two rates by their weights and adding them gives, to within one rate
/// tick: the blend rounds once where the sum rounds twice.
pub proof fn lemma_blend_is_scaled_sum(alpha: int, instantaneous: int, previous: int)
    requires
        0 <= alpha <= 1_000,
        i64::MIN <= instantaneous <= i64::MAX,
        i64::MIN <= previous <= i64::MAX,
    ensures
        -1 <= ema_blend(alpha, instantaneous, previous) - saturate(
            scaled_rate(alpha, instantaneous) + scaled_rate(1_000 - alpha, previous),
        ) <= 1,
{
    let fresh = alpha * instantaneous;
    let kept = (1_000 - alpha) * previous;
    lemma_round_div_error(fresh, 1_000);
    lemma_round_div_error(kept, 1_000);
    lemma_round_div_error(fresh + kept, 1_000);
    lemma_blend_between(alpha, instantaneous, previous);
    assert(i64::MIN <= round_div(fresh, 1_000) <= i64::MAX) by {
        let lo = if instantaneous <= 0 {
            instantaneous
        } else {
            0
        };
        let hi = if instantaneous >= 0 {
            instantaneous
        } else {
            0
        };
        assert(lo * 1_000 <= fresh <= hi * 1_000) by (nonlinear_arith)
            requires
                0 <= alpha <= 1_000,
                lo <= instantaneous <= hi,
                lo <= 0 <= hi,
                fresh == alpha * instantaneous,
        ;
        lemma_round_div_between(fresh, 1_000, lo, hi);
    }
    assert(i64::MIN <= round_div(kept, 1_000) <= i64::MAX) by {
        let lo = if previous <= 0 {
            previous
        } else {
            0
        };
        let hi = if previous >= 0 {
            previous
        } else {
            0
        };
        assert(lo * 1_000 <= kept <= hi * 1_000) by (nonlinear_arith)
            requires
                0 <= alpha <= 1_000,
                lo <= previous <= hi,
                lo <= 0 <= hi,
                kept == (1_000 - alpha) * previous,
        ;
        lemma_round_div_between(kept, 1_000, lo, hi);
    }
}

} // verus!

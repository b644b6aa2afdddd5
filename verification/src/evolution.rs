//! How a star's properties change with time: a steady drift while the
//! star lives, and the rule of its fate once it has died.

use vstd::prelude::*;
use crate::fixed::Fixed;
use crate::fixed::abs;
use crate::fixed::fits_i128;
use crate::fixed::scaled_up;
use crate::fixed::floor_div;
use crate::fixed::floor_mod;
use crate::fixed::differs_at_most;
use crate::length::Length;
use crate::luminosity::Luminosity;
use crate::mass::Mass;
use crate::star_data::StarData;
use crate::temperature::Temperature;
use crate::time::Time;
use crate::time::SECONDS_PER_YEAR;

verus! {

/// Seconds within which a death counts as happening now: one year.
pub const DEATH_TIMESCALE: i128 = 31_557_600;

/// Seconds beyond which a drifting star counts as changed: a thousand
/// years.
pub const EVOLUTION_TIMESCALE: i128 = 31_557_600_000;

/// How a star ends.
#[derive(Clone, Copy, Debug, PartialEq, Eq, Structural)]
pub enum StarFate {
    WhiteDwarf,
    TypeIISupernova,
}

/// A steady drift: `change` base units in every `span` seconds.
#[derive(Clone, Copy, Debug, PartialEq, Eq, Structural)]
pub struct Rate {
    pub change: i128,
    pub span: i128,
}

/// The drift that brings a change of `change` in `span` seconds, with the
/// span counted forwards.
pub open spec fn rate_between(change: int, span: int) -> Rate {
    if span > 0 {
        Rate { change: change as i128, span: span as i128 }
    } else {
        Rate { change: (-change) as i128, span: (-span) as i128 }
    }
}

impl Rate {
    /// The span is positive.
    pub open spec fn wf(&self) -> bool {
        self.span > 0
    }

    /// The change that has come about after `t` seconds, rounded down.
    pub open spec fn change_after(&self, t: int) -> int {
        (self.change * t) / (self.span as int)
    }

    /// `true` when the change after `t` seconds can be computed within
    /// `i128`.
    pub open spec fn is_computable(&self, t: int) -> bool {
        &&& fits_i128((self.change / self.span) * t)
        &&& fits_i128((self.change % self.span) * t)
        &&& fits_i128(self.change_after(t))
    }

    /// No drift.
    pub fn zero() -> (r: Rate)
        ensures
            r.wf(),
            r == (Rate { change: 0, span: 1 }),
    {
        Rate { change: 0, span: 1 }
    }

    /// The drift that brings a change of `change` in `span` seconds.
    pub fn new(change: i128, span: i128) -> (r: Rate)
        requires
            span != 0,
            change > i128::MIN,
            span > i128::MIN,
        ensures
            r.wf(),
            r == rate_between(change as int, span as int),
    {
        if span > 0 {
            Rate { change, span }
        } else {
            Rate { change: -change, span: -span }
        }
    }

    /// The change that has come about after the time `t`, rounded down,
    /// where it can be computed within `i128`.
    pub fn after(&self, t: Time) -> (r: Option<i128>)
        requires
            self.wf(),
        ensures
            r.is_some() == self.is_computable(t@),
            r.is_some() ==> r.unwrap() == self.change_after(t@),
    {
        let q: i128 = floor_div(self.change, self.span);
        let m: i128 = floor_mod(self.change, self.span);
        proof {
            lemma_change_splits(*self, t@);
        }
        let whole: i128 = match q.checked_mul(t.seconds) {
            Some(w) => w,
            None => {
                return None;
            },
        };
        let part: i128 = match m.checked_mul(t.seconds) {
            Some(p) => p,
            None => {
                return None;
            },
        };
        whole.checked_add(floor_div(part, self.span))
    }
}

/// The change after `t` seconds is the whole multiples of the span in the
/// change, taken `t` times, and what the rest of the change brings.
pub proof fn lemma_change_splits(rate: Rate, t: int)
    requires
        rate.wf(),
    ensures
        rate.change_after(t) == (rate.change / rate.span) * t + ((rate.change % rate.span) * t) / (
        rate.span as int),
{
    let c = rate.change as int;
    let s = rate.span as int;
    let q = c / s;
    let m = c % s;
    vstd::arithmetic::div_mod::lemma_fundamental_div_mod(c, s);
    assert(c * t == m * t + (q * t) * s) by (nonlinear_arith)
        requires
            c == s * q + m,
    ;
    vstd::arithmetic::div_mod::lemma_hoist_over_denominator(m * t, q * t, s as nat);
}

/// After its own span a drift has brought its whole change.
pub proof fn lemma_change_after_span(change: int, span: int)
    requires
        span != 0,
        fits_i128(change),
        fits_i128(-change),
        fits_i128(span),
        fits_i128(-span),
    ensures
        rate_between(change, span).change_after(span) == change,
{
    if span > 0 {
        vstd::arithmetic::div_mod::lemma_div_multiples_vanish(change, span);
        assert(change * span == span * change) by (nonlinear_arith);
    } else {
        vstd::arithmetic::div_mod::lemma_div_multiples_vanish(change, -span);
        assert((-change) * span == (-span) * change) by (nonlinear_arith);
    }
}

/// The change after its own span can be computed within `i128` where the
/// square of the span, and the change and the span put together, are
/// values of `i128`.
pub proof fn lemma_change_after_span_is_computable(change: int, span: int)
    requires
        span != 0,
        fits_i128(span * span),
        fits_i128(abs(change) + abs(span)),
    ensures
        rate_between(change, span).is_computable(span),
{
    assert(abs(span) <= span * span) by (nonlinear_arith)
        requires
            span != 0,
    ;
    lemma_change_after_span(change, span);
    let rate = rate_between(change, span);
    let c = rate.change as int;
    let s = rate.span as int;
    assert(s > 0 && s == abs(span) && abs(c) == abs(change));
    let q = c / s;
    let m = c % s;
    vstd::arithmetic::div_mod::lemma_fundamental_div_mod(c, s);
    vstd::arithmetic::div_mod::lemma_mod_bound(c, s);
    assert(q * s == c - m) by (nonlinear_arith)
        requires
            c == s * q + m,
    ;
    assert(0 <= m * s < s * s) by (nonlinear_arith)
        requires
            0 <= m < s,
    ;
    assert(s * s == span * span) by (nonlinear_arith)
        requires
            s == span || s == -span,
    ;
    if span > 0 {
        assert(q * span == q * s);
        assert(m * span == m * s);
    } else {
        assert(q * span == -(q * s)) by (nonlinear_arith)
            requires
                span == -s,
        ;
        assert(m * span == -(m * s)) by (nonlinear_arith)
            requires
                span == -s,
        ;
    }
}

/// No drift brings no change.
pub proof fn lemma_no_change_without_drift(rate: Rate, t: int)
    requires
        rate.wf(),
        rate.change == 0,
    ensures
        rate.change_after(t) == 0,
        rate.is_computable(t),
{
    assert(rate.change * t == 0) by (nonlinear_arith)
        requires
            rate.change == 0,
    ;
    assert(0int / (rate.span as int) == 0 && 0int % (rate.span as int) == 0) by {
        vstd::arithmetic::div_mod::lemma_basic_div(0, rate.span as int);
        vstd::arithmetic::div_mod::lemma_small_mod(0, rate.span as nat);
    }
    assert((rate.change / rate.span) * t == 0) by (nonlinear_arith)
        requires
            rate.change / rate.span == 0,
    ;
    assert((rate.change % rate.span) * t == 0) by (nonlinear_arith)
        requires
            rate.change % rate.span == 0,
    ;
}

/// The drift of one property between two samples of it taken `span`
/// seconds apart: none where either sample lacks the property.
pub open spec fn channel_rate(now: Option<int>, then: Option<int>, span: int) -> Rate {
    if now.is_some() && then.is_some() {
        rate_between(now.unwrap() - then.unwrap(), span)
    } else {
        Rate { change: 0, span: 1 }
    }
}

/// `true` when the difference of the two samples of one property, taken
/// either way round, is a value of `i128`.
pub open spec fn channel_is_derivable(now: Option<int>, then: Option<int>) -> bool {
    now.is_some() && then.is_some() ==> fits_i128(now.unwrap() - then.unwrap()) && fits_i128(
        then.unwrap() - now.unwrap(),
    )
}

/// The mass of a star in kilograms, where it is known.
pub open spec fn mass_of(star: StarData) -> Option<int> {
    match star.mass {
        Some(m) => Some(m@),
        None => None,
    }
}

/// The radius of a star in metres, where it is known.
pub open spec fn radius_of(star: StarData) -> Option<int> {
    match star.radius {
        Some(l) => Some(l@),
        None => None,
    }
}

/// The luminous intensity of a star in candela, where it is known.
pub open spec fn luminosity_of(star: StarData) -> Option<int> {
    match star.luminosity {
        Some(l) => Some(l@),
        None => None,
    }
}

/// The temperature of a star in millikelvin, where it is known.
pub open spec fn temperature_of(star: StarData) -> Option<int> {
    match star.temperature {
        Some(t) => Some(t@),
        None => None,
    }
}

/// The drift of each property of a star while it lives.
#[derive(Clone, Copy, Debug, PartialEq, Eq, Structural)]
pub struct StarDataLifestageEvolution {
    pub mass_per_year: Rate,
    pub radius_per_year: Rate,
    pub luminous_intensity_per_year: Rate,
    pub temperature_per_year: Rate,
}

/// The drift of one property between two samples of it.
fn derive_channel(now: Option<i128>, then: Option<i128>, span: i128) -> (r: Rate)
    requires
        span != 0,
        span > i128::MIN,
        now.is_some() && then.is_some() ==> fits_i128(now.unwrap() - then.unwrap()) && fits_i128(
            then.unwrap() - now.unwrap(),
        ),
    ensures
        r.wf(),
        now.is_some() && then.is_some() ==> r == rate_between(
            now.unwrap() - then.unwrap(),
            span as int,
        ),
        !(now.is_some() && then.is_some()) ==> r == (Rate { change: 0, span: 1 }),
{
    match (now, then) {
        (Some(n), Some(t)) => Rate::new(n - t, span),
        _ => Rate::zero(),
    }
}

/// Tells whether the difference of the two samples, taken either way
/// round, is a value of `i128`.
fn channel_fits(now: Option<i128>, then: Option<i128>) -> (r: bool)
    ensures
        r == (now.is_some() && then.is_some() ==> fits_i128(now.unwrap() - then.unwrap())
            && fits_i128(then.unwrap() - now.unwrap())),
{
    match (now, then) {
        (Some(n), Some(t)) => n.checked_sub(t).is_some() && t.checked_sub(n).is_some(),
        _ => true,
    }
}

/// The kilograms of a mass, where there is one.
fn kilograms_of(mass: Option<Mass>) -> (r: Option<i128>)
    ensures
        r.is_some() == mass.is_some(),
        r.is_some() ==> r.unwrap() == mass.unwrap()@,
{
    match mass {
        Some(m) => Some(m.kilograms),
        None => None,
    }
}

/// The metres of a length, where there is one.
fn meters_of(length: Option<Length>) -> (r: Option<i128>)
    ensures
        r.is_some() == length.is_some(),
        r.is_some() ==> r.unwrap() == length.unwrap()@,
{
    match length {
        Some(l) => Some(l.meters),
        None => None,
    }
}

/// The candela of a luminous intensity, where there is one.
fn candela_of(luminosity: Option<Luminosity>) -> (r: Option<i128>)
    ensures
        r.is_some() == luminosity.is_some(),
        r.is_some() ==> r.unwrap() == luminosity.unwrap()@,
{
    match luminosity {
        Some(l) => Some(l.candela),
        None => None,
    }
}

/// The millikelvin of a temperature, where there is one.
fn millikelvin_of(temperature: Option<Temperature>) -> (r: Option<i128>)
    ensures
        r.is_some() == temperature.is_some(),
        r.is_some() ==> r.unwrap() == temperature.unwrap()@,
{
    match temperature {
        Some(t) => Some(t.millikelvin),
        None => None,
    }
}

impl StarDataLifestageEvolution {
    /// Every drift has a positive span.
    pub open spec fn wf(&self) -> bool {
        &&& self.mass_per_year.wf()
        &&& self.radius_per_year.wf()
        &&& self.luminous_intensity_per_year.wf()
        &&& self.temperature_per_year.wf()
    }

    /// The seconds in `years` years, rounded towards zero.
    pub open spec fn span_of(years: int) -> int {
        scaled_up(years, SECONDS_PER_YEAR as int)
    }

    /// `true` when the drifts between the two samples can be derived: the
    /// samples lie a whole second or more apart, and the numbers involved
    /// are values of `i128`.
    pub open spec fn is_derivable(now: StarData, then: StarData, years: int) -> bool {
        &&& fits_i128(years * SECONDS_PER_YEAR)
        &&& Self::span_of(years) != 0
        &&& channel_is_derivable(mass_of(now), mass_of(then))
        &&& channel_is_derivable(radius_of(now), radius_of(then))
        &&& channel_is_derivable(luminosity_of(now), luminosity_of(then))
        &&& channel_is_derivable(temperature_of(now), temperature_of(then))
    }

    /// The drifts between two samples of one star taken `years` years
    /// apart.
    pub open spec fn derived(now: StarData, then: StarData, years: int) -> Self {
        StarDataLifestageEvolution {
            mass_per_year: channel_rate(mass_of(now), mass_of(then), Self::span_of(years)),
            radius_per_year: channel_rate(radius_of(now), radius_of(then), Self::span_of(years)),
            luminous_intensity_per_year: channel_rate(
                luminosity_of(now),
                luminosity_of(then),
                Self::span_of(years),
            ),
            temperature_per_year: channel_rate(
                temperature_of(now),
                temperature_of(then),
                Self::span_of(years),
            ),
        }
    }

    /// Tells whether the drifts between the two samples can be derived.
    pub fn can_derive(now: &StarData, then: &StarData, years: Fixed) -> (r: bool)
        ensures
            r == Self::is_derivable(*now, *then, years@),
    {
        let product: i128 = match years.nanos.checked_mul(SECONDS_PER_YEAR) {
            Some(p) => p,
            None => {
                return false;
            },
        };
        let span: i128 = product / 1_000_000_000;
        span != 0 && channel_fits(kilograms_of(now.mass), kilograms_of(then.mass)) && channel_fits(
            meters_of(now.radius),
            meters_of(then.radius),
        ) && channel_fits(candela_of(now.luminosity), candela_of(then.luminosity)) && channel_fits(
            millikelvin_of(now.temperature),
            millikelvin_of(then.temperature),
        )
    }

    /// The drifts of a star of which `now` and `then` are two samples
    /// taken `years` years apart: for each property the difference of the
    /// samples in that time, and no drift where either sample lacks it.
    pub fn new(now: &StarData, then: &StarData, years: Fixed) -> (r: Self)
        requires
            Self::is_derivable(*now, *then, years@),
        ensures
            r.wf(),
            r == Self::derived(*now, *then, years@),
    {
        let span: i128 = (years.nanos * SECONDS_PER_YEAR) / 1_000_000_000;
        StarDataLifestageEvolution {
            mass_per_year: derive_channel(kilograms_of(now.mass), kilograms_of(then.mass), span),
            radius_per_year: derive_channel(meters_of(now.radius), meters_of(then.radius), span),
            luminous_intensity_per_year: derive_channel(
                candela_of(now.luminosity),
                candela_of(then.luminosity),
                span,
            ),
            temperature_per_year: derive_channel(
                millikelvin_of(now.temperature),
                millikelvin_of(then.temperature),
                span,
            ),
        }
    }
}

/// A property of a star at some time: its value while the star lives, or
/// what the rule of the star's fate is to be asked once it has died.
#[derive(Clone, Copy, Debug, PartialEq, Eq)]
pub enum Evolved<T> {
    /// The star lives: the property has drifted to this value.
    Interpolated(T),
    /// The star died `time_since_death` ago: the rule of its fate gives
    /// the property.
    PostDeath { fate: StarFate, time_since_death: Time },
}

/// How a star changes with time.
#[derive(Clone, Copy, Debug, PartialEq, Eq, Structural)]
pub struct StarDataEvolution {
    pub lifestage_evolution: Option<StarDataLifestageEvolution>,
    pub age: Option<Time>,
    pub lifetime: Time,
    pub fate: StarFate,
}

/// The change that a drift, if there is one, has brought after `t`
/// seconds.
pub open spec fn drift_after(rate: Option<Rate>, t: int) -> int {
    match rate {
        Some(r) => r.change_after(t),
        None => 0,
    }
}

/// `true` when the change that a drift, if there is one, has brought after
/// `t` seconds can be computed within `i128`.
pub open spec fn drift_is_computable(rate: Option<Rate>, t: int) -> bool {
    match rate {
        Some(r) => r.is_computable(t),
        None => true,
    }
}

/// As a mass.
pub open spec fn as_mass(e: Evolved<i128>) -> Evolved<Mass> {
    match e {
        Evolved::Interpolated(v) => Evolved::Interpolated(Mass { kilograms: v }),
        Evolved::PostDeath { fate, time_since_death } => Evolved::PostDeath {
            fate,
            time_since_death,
        },
    }
}

/// As a length.
pub open spec fn as_length(e: Evolved<i128>) -> Evolved<Length> {
    match e {
        Evolved::Interpolated(v) => Evolved::Interpolated(Length { meters: v }),
        Evolved::PostDeath { fate, time_since_death } => Evolved::PostDeath {
            fate,
            time_since_death,
        },
    }
}

/// As a luminous intensity.
pub open spec fn as_luminosity(e: Evolved<i128>) -> Evolved<Luminosity> {
    match e {
        Evolved::Interpolated(v) => Evolved::Interpolated(Luminosity { candela: v }),
        Evolved::PostDeath { fate, time_since_death } => Evolved::PostDeath {
            fate,
            time_since_death,
        },
    }
}

/// As a temperature.
pub open spec fn as_temperature(e: Evolved<i128>) -> Evolved<Temperature> {
    match e {
        Evolved::Interpolated(v) => Evolved::Interpolated(Temperature { millikelvin: v }),
        Evolved::PostDeath { fate, time_since_death } => Evolved::PostDeath {
            fate,
            time_since_death,
        },
    }
}

impl StarDataEvolution {
    /// The drifts are well formed, and where the age is known, the time
    /// from it to the end of the lifetime is a value of `i128`.
    pub open spec fn wf(&self) -> bool {
        &&& self.lifestage_evolution.is_some() ==> self.lifestage_evolution.unwrap().wf()
        &&& self.age.is_some() ==> fits_i128(self.lifetime@ - self.age.unwrap()@)
    }

    /// The seconds from the time `t` after the epoch to the star's death,
    /// for a star of known age.
    pub open spec fn seconds_until_death(&self, t: int) -> int {
        self.lifetime@ - self.age.unwrap()@ - t
    }

    /// `true` when the star has died by the time `t` after the epoch. A
    /// star of unknown age never has.
    pub open spec fn is_post_death(&self, t: int) -> bool {
        self.age.is_some() && self.seconds_until_death(t) < 0
    }

    /// The drift of the mass, where drifts are known.
    pub open spec fn mass_rate(&self) -> Option<Rate> {
        match self.lifestage_evolution {
            Some(e) => Some(e.mass_per_year),
            None => None,
        }
    }

    /// The drift of the radius, where drifts are known.
    pub open spec fn radius_rate(&self) -> Option<Rate> {
        match self.lifestage_evolution {
            Some(e) => Some(e.radius_per_year),
            None => None,
        }
    }

    /// The drift of the luminous intensity, where drifts are known.
    pub open spec fn luminous_intensity_rate(&self) -> Option<Rate> {
        match self.lifestage_evolution {
            Some(e) => Some(e.luminous_intensity_per_year),
            None => None,
        }
    }

    /// The drift of the temperature, where drifts are known.
    pub open spec fn temperature_rate(&self) -> Option<Rate> {
        match self.lifestage_evolution {
            Some(e) => Some(e.temperature_per_year),
            None => None,
        }
    }

    /// A property that is `base` at the epoch and drifts at `rate`, at the
    /// time `t` after the epoch: after the star's death what its fate is
    /// to be asked, with the time since the death; before it `base` and
    /// what the drift has brought.
    pub open spec fn extrapolated(&self, rate: Option<Rate>, base: int, t: int) -> Evolved<i128> {
        if self.is_post_death(t) {
            Evolved::PostDeath {
                fate: self.fate,
                time_since_death: Time { seconds: (-self.seconds_until_death(t)) as i128 },
            }
        } else {
            Evolved::Interpolated((base + drift_after(rate, t)) as i128)
        }
    }

    /// `true` when the property at the time `t` can be computed within
    /// `i128`.
    pub open spec fn is_extrapolable(&self, rate: Option<Rate>, base: int, t: int) -> bool {
        if self.is_post_death(t) {
            fits_i128(-self.seconds_until_death(t))
        } else {
            drift_is_computable(rate, t) && fits_i128(base + drift_after(rate, t))
        }
    }

    /// `true` when the star counts as changed between the times `then`
    /// and `now`: it dies within a year of `now`, or it drifts and the two
    /// times lie more than a thousand years apart.
    pub open spec fn changed_between(&self, then: int, now: int) -> bool {
        ||| self.age.is_some() && abs(self.seconds_until_death(now)) < DEATH_TIMESCALE
        ||| self.lifestage_evolution.is_some() && abs(then - now) > EVOLUTION_TIMESCALE
    }

    /// A star of which nothing is known: no drift, no age, a white dwarf
    /// in the end.
    pub fn none() -> (r: Self)
        ensures
            r.wf(),
            r == (StarDataEvolution {
                lifestage_evolution: None,
                age: None,
                lifetime: Time { seconds: 0 },
                fate: StarFate::WhiteDwarf,
            }),
    {
        StarDataEvolution {
            lifestage_evolution: None,
            age: None,
            lifetime: Time { seconds: 0 },
            fate: StarFate::WhiteDwarf,
        }
    }

    /// The evolution of a star with these drifts, age, lifetime and fate.
    pub fn new(
        lifestage_evolution: Option<StarDataLifestageEvolution>,
        age: Option<Time>,
        lifetime: Time,
        fate: StarFate,
    ) -> (r: Self)
        ensures
            r == (StarDataEvolution { lifestage_evolution, age, lifetime, fate }),
    {
        StarDataEvolution { lifestage_evolution, age, lifetime, fate }
    }

    /// Tells whether the evolution is well formed.
    pub fn is_valid(&self) -> (r: bool)
        ensures
            r == self.wf(),
    {
        let rates_ok: bool = match self.lifestage_evolution {
            Some(e) => e.mass_per_year.span > 0 && e.radius_per_year.span > 0
                && e.luminous_intensity_per_year.span > 0 && e.temperature_per_year.span > 0,
            None => true,
        };
        let age_ok: bool = match self.age {
            Some(a) => self.lifetime.seconds.checked_sub(a.seconds).is_some(),
            None => true,
        };
        rates_ok && age_ok
    }

    /// Tells whether the star has died by the time `time_since_epoch`.
    pub fn is_dead_at(&self, time_since_epoch: Time) -> (r: bool)
        requires
            self.wf(),
        ensures
            r == self.is_post_death(time_since_epoch@),
    {
        match self.age {
            Some(a) => self.lifetime.seconds - a.seconds < time_since_epoch.seconds,
            None => false,
        }
    }

    /// The time from `time_since_epoch` to the star's death, negative
    /// once it has died; `None` for a star of unknown age, and where the
    /// time is no value of `i128`.
    pub fn time_until_death(&self, time_since_epoch: Time) -> (r: Option<Time>)
        requires
            self.wf(),
        ensures
            r.is_some() == (self.age.is_some() && fits_i128(
                self.seconds_until_death(time_since_epoch@),
            )),
            r.is_some() ==> r.unwrap()@ == self.seconds_until_death(time_since_epoch@),
    {
        match self.age {
            Some(a) => {
                match (self.lifetime.seconds - a.seconds).checked_sub(time_since_epoch.seconds) {
                    Some(seconds) => Some(Time { seconds }),
                    None => None,
                }
            },
            None => None,
        }
    }

    /// Tells whether the star counts as changed between the times `then`
    /// and `now`.
    pub fn has_changed(&self, then: Time, now: Time) -> (r: bool)
        requires
            self.wf(),
        ensures
            r == self.changed_between(then@, now@),
    {
        let dying: bool = match self.age {
            Some(a) => differs_at_most(
                self.lifetime.seconds - a.seconds,
                now.seconds,
                DEATH_TIMESCALE - 1,
            ),
            None => false,
        };
        if dying {
            return true;
        }
        self.lifestage_evolution.is_some() && !differs_at_most(
            then.seconds,
            now.seconds,
            EVOLUTION_TIMESCALE,
        )
    }

    /// A property that is `base` at the epoch and drifts at `rate`, at the
    /// time `t` after the epoch.
    fn extrapolate(&self, rate: Option<Rate>, base: i128, t: Time) -> (r: Option<Evolved<i128>>)
        requires
            self.wf(),
            rate.is_some() ==> rate.unwrap().wf(),
        ensures
            r.is_some() == self.is_extrapolable(rate, base as int, t@),
            r.is_some() ==> r.unwrap() == self.extrapolated(rate, base as int, t@),
    {
        if self.is_dead_at(t) {
            let until: i128 = match self.age {
                Some(a) => self.lifetime.seconds - a.seconds,
                None => 0,
            };
            return match t.seconds.checked_sub(until) {
                Some(seconds) => Some(
                    Evolved::PostDeath { fate: self.fate, time_since_death: Time { seconds } },
                ),
                None => None,
            };
        }
        let change: i128 = match rate {
            Some(rate) => match rate.after(t) {
                Some(c) => c,
                None => {
                    return None;
                },
            },
            None => 0,
        };
        match base.checked_add(change) {
            Some(v) => Some(Evolved::Interpolated(v)),
            None => None,
        }
    }

    /// The star's mass at the time `time_since_epoch`, where it is `mass`
    /// at the epoch.
    pub fn apply_to_mass(&self, mass: Mass, time_since_epoch: Time) -> (r: Option<Evolved<Mass>>)
        requires
            self.wf(),
        ensures
            r.is_some() == self.is_extrapolable(self.mass_rate(), mass@, time_since_epoch@),
            r.is_some() ==> r.unwrap() == as_mass(
                self.extrapolated(self.mass_rate(), mass@, time_since_epoch@),
            ),
    {
        let rate: Option<Rate> = match self.lifestage_evolution {
            Some(e) => Some(e.mass_per_year),
            None => None,
        };
        match self.extrapolate(rate, mass.kilograms, time_since_epoch) {
            Some(Evolved::Interpolated(kilograms)) => Some(Evolved::Interpolated(Mass { kilograms })),
            Some(Evolved::PostDeath { fate, time_since_death }) => Some(
                Evolved::PostDeath { fate, time_since_death },
            ),
            None => None,
        }
    }

    /// The star's radius at the time `time_since_epoch`, where it is
    /// `radius` at the epoch.
    pub fn apply_to_radius(&self, radius: Length, time_since_epoch: Time) -> (r: Option<
        Evolved<Length>,
    >)
        requires
            self.wf(),
        ensures
            r.is_some() == self.is_extrapolable(self.radius_rate(), radius@, time_since_epoch@),
            r.is_some() ==> r.unwrap() == as_length(
                self.extrapolated(self.radius_rate(), radius@, time_since_epoch@),
            ),
    {
        let rate: Option<Rate> = match self.lifestage_evolution {
            Some(e) => Some(e.radius_per_year),
            None => None,
        };
        match self.extrapolate(rate, radius.meters, time_since_epoch) {
            Some(Evolved::Interpolated(meters)) => Some(Evolved::Interpolated(Length { meters })),
            Some(Evolved::PostDeath { fate, time_since_death }) => Some(
                Evolved::PostDeath { fate, time_since_death },
            ),
            None => None,
        }
    }

    /// The star's luminous intensity at the time `time_since_epoch`, where
    /// it is `luminous_intensity` at the epoch.
    pub fn apply_to_luminous_intensity(
        &self,
        luminous_intensity: Luminosity,
        time_since_epoch: Time,
    ) -> (r: Option<Evolved<Luminosity>>)
        requires
            self.wf(),
        ensures
            r.is_some() == self.is_extrapolable(
                self.luminous_intensity_rate(),
                luminous_intensity@,
                time_since_epoch@,
            ),
            r.is_some() ==> r.unwrap() == as_luminosity(
                self.extrapolated(
                    self.luminous_intensity_rate(),
                    luminous_intensity@,
                    time_since_epoch@,
                ),
            ),
    {
        let rate: Option<Rate> = match self.lifestage_evolution {
            Some(e) => Some(e.luminous_intensity_per_year),
            None => None,
        };
        match self.extrapolate(rate, luminous_intensity.candela, time_since_epoch) {
            Some(Evolved::Interpolated(candela)) => Some(
                Evolved::Interpolated(Luminosity { candela }),
            ),
            Some(Evolved::PostDeath { fate, time_since_death }) => Some(
                Evolved::PostDeath { fate, time_since_death },
            ),
            None => None,
        }
    }

    /// The star's temperature at the time `time_since_epoch`, where it is
    /// `temperature` at the epoch.
    pub fn apply_to_temperature(&self, temperature: Temperature, time_since_epoch: Time) -> (r:
        Option<Evolved<Temperature>>)
        requires
            self.wf(),
        ensures
            r.is_some() == self.is_extrapolable(
                self.temperature_rate(),
                temperature@,
                time_since_epoch@,
            ),
            r.is_some() ==> r.unwrap() == as_temperature(
                self.extrapolated(self.temperature_rate(), temperature@, time_since_epoch@),
            ),
    {
        let rate: Option<Rate> = match self.lifestage_evolution {
            Some(e) => Some(e.temperature_per_year),
            None => None,
        };
        match self.extrapolate(rate, temperature.millikelvin, time_since_epoch) {
            Some(Evolved::Interpolated(millikelvin)) => Some(
                Evolved::Interpolated(Temperature { millikelvin }),
            ),
            Some(Evolved::PostDeath { fate, time_since_death }) => Some(
                Evolved::PostDeath { fate, time_since_death },
            ),
            None => None,
        }
    }

    /// What a drift, if there is one, brings in one year.
    fn yearly(rate: Option<Rate>) -> (r: Option<i128>)
        requires
            rate.is_some() ==> rate.unwrap().wf(),
        ensures
            r.is_some() == drift_is_computable(rate, SECONDS_PER_YEAR as int),
            r.is_some() ==> r.unwrap() == drift_after(rate, SECONDS_PER_YEAR as int),
    {
        match rate {
            Some(rate) => rate.after(Time { seconds: SECONDS_PER_YEAR }),
            None => Some(0),
        }
    }

    /// The mass that the star gains in one year of its life, rounded down;
    /// none where no drift is known.
    pub fn get_lifestage_mass_per_year(&self) -> (r: Option<Mass>)
        requires
            self.wf(),
        ensures
            r.is_some() == drift_is_computable(self.mass_rate(), SECONDS_PER_YEAR as int),
            r.is_some() ==> r.unwrap()@ == drift_after(self.mass_rate(), SECONDS_PER_YEAR as int),
    {
        let rate: Option<Rate> = match self.lifestage_evolution {
            Some(e) => Some(e.mass_per_year),
            None => None,
        };
        match Self::yearly(rate) {
            Some(kilograms) => Some(Mass { kilograms }),
            None => None,
        }
    }

    /// The radius that the star gains in one year of its life, rounded
    /// down; none where no drift is known.
    pub fn get_lifestage_radius_per_year(&self) -> (r: Option<Length>)
        requires
            self.wf(),
        ensures
            r.is_some() == drift_is_computable(self.radius_rate(), SECONDS_PER_YEAR as int),
            r.is_some() ==> r.unwrap()@ == drift_after(
                self.radius_rate(),
                SECONDS_PER_YEAR as int,
            ),
    {
        let rate: Option<Rate> = match self.lifestage_evolution {
            Some(e) => Some(e.radius_per_year),
            None => None,
        };
        match Self::yearly(rate) {
            Some(meters) => Some(Length { meters }),
            None => None,
        }
    }

    /// The luminous intensity that the star gains in one year of its life,
    /// rounded down; none where no drift is known.
    pub fn get_lifestage_luminous_intensity_per_year(&self) -> (r: Option<Luminosity>)
        requires
            self.wf(),
        ensures
            r.is_some() == drift_is_computable(
                self.luminous_intensity_rate(),
                SECONDS_PER_YEAR as int,
            ),
            r.is_some() ==> r.unwrap()@ == drift_after(
                self.luminous_intensity_rate(),
                SECONDS_PER_YEAR as int,
            ),
    {
        let rate: Option<Rate> = match self.lifestage_evolution {
            Some(e) => Some(e.luminous_intensity_per_year),
            None => None,
        };
        match Self::yearly(rate) {
            Some(candela) => Some(Luminosity { candela }),
            None => None,
        }
    }

    /// The temperature that the star gains in one year of its life,
    /// rounded down; none where no drift is known.
    pub fn get_lifestage_temperature_per_year(&self) -> (r: Option<Temperature>)
        requires
            self.wf(),
        ensures
            r.is_some() == drift_is_computable(self.temperature_rate(), SECONDS_PER_YEAR as int),
            r.is_some() ==> r.unwrap()@ == drift_after(
                self.temperature_rate(),
                SECONDS_PER_YEAR as int,
            ),
    {
        let rate: Option<Rate> = match self.lifestage_evolution {
            Some(e) => Some(e.temperature_per_year),
            None => None,
        };
        match Self::yearly(rate) {
            Some(millikelvin) => Some(Temperature { millikelvin }),
            None => None,
        }
    }
}

/// A star of unknown age that does not drift keeps each property for all
/// time.
pub proof fn lemma_static_without_age_and_drift(
    evolution: StarDataEvolution,
    rate: Option<Rate>,
    base: i128,
    t: int,
)
    requires
        evolution.age.is_none(),
        rate.is_some() ==> rate.unwrap().wf() && rate.unwrap().change == 0,
    ensures
        evolution.is_extrapolable(rate, base as int, t),
        evolution.extrapolated(rate, base as int, t) == Evolved::Interpolated(base),
{
    if rate.is_some() {
        lemma_no_change_without_drift(rate.unwrap(), t);
    }
}

/// A star of known age changes from drifting to the rule of its fate at
/// the instant of its death: up to and at that instant a property is its
/// drifted value, from the next second on its fate is asked, with the time
/// since the death.
pub proof fn lemma_branch_switches_at_death(
    evolution: StarDataEvolution,
    rate: Option<Rate>,
    base: int,
    t: int,
)
    requires
        evolution.age.is_some(),
    ensures
        evolution.seconds_until_death(t) >= 0 ==> evolution.extrapolated(rate, base, t)
            == Evolved::Interpolated((base + drift_after(rate, t)) as i128),
        evolution.seconds_until_death(t) < 0 ==> evolution.extrapolated(rate, base, t)
            == (Evolved::<i128>::PostDeath {
            fate: evolution.fate,
            time_since_death: Time { seconds: (-evolution.seconds_until_death(t)) as i128 },
        }),
        evolution.is_post_death(t) != evolution.is_post_death(t - 1) ==> evolution.seconds_until_death(
            t,
        ) == -1,
{
}

/// Drifts derived from two samples of a star taken `years` years apart
/// carry each property of the earlier sample, after that time, to its
/// value in the later one.
pub proof fn lemma_drift_reaches_later_sample(
    evolution: StarDataEvolution,
    now: StarData,
    then: StarData,
    years: int,
)
    requires
        StarDataLifestageEvolution::is_derivable(now, then, years),
        evolution.lifestage_evolution == Some(StarDataLifestageEvolution::derived(now, then, years)),
        !evolution.is_post_death(StarDataLifestageEvolution::span_of(years)),
    ensures
        now.mass.is_some() && then.mass.is_some() ==> evolution.extrapolated(
            evolution.mass_rate(),
            then.mass.unwrap()@,
            StarDataLifestageEvolution::span_of(years),
        ) == Evolved::Interpolated(now.mass.unwrap().kilograms),
        now.radius.is_some() && then.radius.is_some() ==> evolution.extrapolated(
            evolution.radius_rate(),
            then.radius.unwrap()@,
            StarDataLifestageEvolution::span_of(years),
        ) == Evolved::Interpolated(now.radius.unwrap().meters),
        now.luminosity.is_some() && then.luminosity.is_some() ==> evolution.extrapolated(
            evolution.luminous_intensity_rate(),
            then.luminosity.unwrap()@,
            StarDataLifestageEvolution::span_of(years),
        ) == Evolved::Interpolated(now.luminosity.unwrap().candela),
        now.temperature.is_some() && then.temperature.is_some() ==> evolution.extrapolated(
            evolution.temperature_rate(),
            then.temperature.unwrap()@,
            StarDataLifestageEvolution::span_of(years),
        ) == Evolved::Interpolated(now.temperature.unwrap().millikelvin),
{
    let span = StarDataLifestageEvolution::span_of(years);
    assert(fits_i128(span) && fits_i128(-span)) by {
        lemma_span_fits(years);
    }
    if now.mass.is_some() && then.mass.is_some() {
        lemma_change_after_span(now.mass.unwrap()@ - then.mass.unwrap()@, span);
    }
    if now.radius.is_some() && then.radius.is_some() {
        lemma_change_after_span(now.radius.unwrap()@ - then.radius.unwrap()@, span);
    }
    if now.luminosity.is_some() && then.luminosity.is_some() {
        lemma_change_after_span(now.luminosity.unwrap()@ - then.luminosity.unwrap()@, span);
    }
    if now.temperature.is_some() && then.temperature.is_some() {
        lemma_change_after_span(now.temperature.unwrap()@ - then.temperature.unwrap()@, span);
    }
}

/// `true` when the numbers are small enough for each property of the
/// earlier sample to be carried to the later one: the square of the
/// seconds between the samples, and for each property that both samples
/// have the difference of the samples and those seconds put together, are
/// values of `i128`.
pub open spec fn is_within_reach(now: StarData, then: StarData, years: int) -> bool {
    let span = StarDataLifestageEvolution::span_of(years);
    &&& fits_i128(span * span)
    &&& channel_is_within_reach(mass_of(now), mass_of(then), span)
    &&& channel_is_within_reach(radius_of(now), radius_of(then), span)
    &&& channel_is_within_reach(luminosity_of(now), luminosity_of(then), span)
    &&& channel_is_within_reach(temperature_of(now), temperature_of(then), span)
}

/// `true` when the difference of the two samples of one property and the
/// seconds between them, put together, are a value of `i128`.
pub open spec fn channel_is_within_reach(now: Option<int>, then: Option<int>, span: int) -> bool {
    now.is_some() && then.is_some() ==> fits_i128(abs(now.unwrap() - then.unwrap()) + abs(span))
}

/// Where the numbers are small enough, each property of the earlier of
/// two samples can be carried over the years between them, and so the
/// later sample is what `apply_to_mass` and the like return.
pub proof fn lemma_later_sample_is_computed(
    evolution: StarDataEvolution,
    now: StarData,
    then: StarData,
    years: int,
)
    requires
        StarDataLifestageEvolution::is_derivable(now, then, years),
        is_within_reach(now, then, years),
        evolution.lifestage_evolution == Some(StarDataLifestageEvolution::derived(now, then, years)),
        !evolution.is_post_death(StarDataLifestageEvolution::span_of(years)),
    ensures
        now.mass.is_some() && then.mass.is_some() ==> evolution.is_extrapolable(
            evolution.mass_rate(),
            then.mass.unwrap()@,
            StarDataLifestageEvolution::span_of(years),
        ),
        now.radius.is_some() && then.radius.is_some() ==> evolution.is_extrapolable(
            evolution.radius_rate(),
            then.radius.unwrap()@,
            StarDataLifestageEvolution::span_of(years),
        ),
        now.luminosity.is_some() && then.luminosity.is_some() ==> evolution.is_extrapolable(
            evolution.luminous_intensity_rate(),
            then.luminosity.unwrap()@,
            StarDataLifestageEvolution::span_of(years),
        ),
        now.temperature.is_some() && then.temperature.is_some() ==> evolution.is_extrapolable(
            evolution.temperature_rate(),
            then.temperature.unwrap()@,
            StarDataLifestageEvolution::span_of(years),
        ),
{
    let span = StarDataLifestageEvolution::span_of(years);
    assert(fits_i128(span) && fits_i128(-span)) by {
        lemma_span_fits(years);
    }
    if now.mass.is_some() && then.mass.is_some() {
        lemma_change_after_span(now.mass.unwrap()@ - then.mass.unwrap()@, span);
        lemma_change_after_span_is_computable(now.mass.unwrap()@ - then.mass.unwrap()@, span);
    }
    if now.radius.is_some() && then.radius.is_some() {
        lemma_change_after_span(now.radius.unwrap()@ - then.radius.unwrap()@, span);
        lemma_change_after_span_is_computable(now.radius.unwrap()@ - then.radius.unwrap()@, span);
    }
    if now.luminosity.is_some() && then.luminosity.is_some() {
        lemma_change_after_span(now.luminosity.unwrap()@ - then.luminosity.unwrap()@, span);
        lemma_change_after_span_is_computable(
            now.luminosity.unwrap()@ - then.luminosity.unwrap()@,
            span,
        );
    }
    if now.temperature.is_some() && then.temperature.is_some() {
        lemma_change_after_span(now.temperature.unwrap()@ - then.temperature.unwrap()@, span);
        lemma_change_after_span_is_computable(
            now.temperature.unwrap()@ - then.temperature.unwrap()@,
            span,
        );
    }
}

/// The seconds in a number of years that fits `i128` fit it either way
/// round.
pub proof fn lemma_span_fits(years: int)
    requires
        fits_i128(years * SECONDS_PER_YEAR),
    ensures
        fits_i128(StarDataLifestageEvolution::span_of(years)),
        fits_i128(-StarDataLifestageEvolution::span_of(years)),
{
    let p = years * SECONDS_PER_YEAR;
    if p >= 0 {
        vstd::arithmetic::div_mod::lemma_div_nonincreasing(p, 1_000_000_000);
        vstd::arithmetic::div_mod::lemma_div_pos_is_pos(p, 1_000_000_000);
    } else {
        vstd::arithmetic::div_mod::lemma_div_nonincreasing(-p, 1_000_000_000);
        vstd::arithmetic::div_mod::lemma_div_pos_is_pos(-p, 1_000_000_000);
        vstd::arithmetic::div_mod::lemma_div_decreases(-p, 1_000_000_000);
    }
}

} // verus!

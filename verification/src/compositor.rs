//! Front-to-back volumetric compositing.
//!
//! A ray collects colour samples — disk crossings, then one terminal capture
//! or skybox sample — and blends them front to back: each sample's
//! contribution is weighted by its opacity and by the transmittance still
//! left, and the transmittance shrinks by the sample's opacity.  Channels
//! are fixed-point fractions scaled by [`FP_ONE`], so the blending rules are
//! exact arithmetic here: transmittance never increases, a fully opaque
//! sample extinguishes it, and an accumulated channel never exceeds the
//! light already absorbed, so nothing overflows.

use vstd::arithmetic::div_mod::{
    lemma_div_is_ordered,
    lemma_div_multiples_vanish,
    lemma_fundamental_div_mod,
};
use vstd::arithmetic::mul::lemma_mul_inequality;
use vstd::prelude::*;

verus! {

/// The fixed-point scale: this value stands for the real number one.
pub const FP_ONE: u64 = 65536;

/// An RGBA colour with each channel a fixed-point fraction in
/// `[0, FP_ONE]`, linear until the driver's final gamma correction.
#[derive(Clone, Copy, Debug, PartialEq, Eq, Structural)]
pub struct Color {
    pub r: u64,
    pub g: u64,
    pub b: u64,
    pub a: u64,
}

/// Every channel is within the fixed-point unit range.
pub open spec fn valid_color(c: Color) -> bool {
    c.r <= FP_ONE && c.g <= FP_ONE && c.b <= FP_ONE && c.a <= FP_ONE
}

/// The transmittance left after blending a sample of opacity `a` against a
/// transmittance of `t`.
pub open spec fn spec_new_transmittance(t: int, a: int) -> int {
    t * (FP_ONE - a) / (FP_ONE as int)
}

/// The contribution one channel `c` of a sample with opacity `a` makes
/// under transmittance `t`.
pub open spec fn spec_contribution(c: int, a: int, t: int) -> int {
    c * a * t / ((FP_ONE * FP_ONE) as int)
}

/// Blending a sample never increases the transmittance.
pub proof fn lemma_transmittance_monotone(t: int, a: int)
    requires
        0 <= t <= FP_ONE,
        0 <= a <= FP_ONE,
    ensures
        0 <= spec_new_transmittance(t, a) <= t,
{
    let k: int = FP_ONE as int;
    lemma_mul_inequality(k - a, k, t);
    assert(t * (k - a) == (k - a) * t) by (nonlinear_arith);
    assert(t * k == k * t) by (nonlinear_arith);
    lemma_div_is_ordered(t * (k - a), t * k, k);
    lemma_div_multiples_vanish(t, k);
    assert(t * (k - a) >= 0) by (nonlinear_arith)
        requires
            t >= 0,
            a <= k,
    ;
    lemma_div_is_ordered(0, t * (k - a), k);
}

/// A fully opaque sample extinguishes the transmittance exactly.
pub proof fn lemma_opaque_sample_extinguishes(t: int)
    requires
        0 <= t <= FP_ONE,
    ensures
        spec_new_transmittance(t, FP_ONE as int) == 0,
{
}

/// The transmittance left after blending a whole sequence of samples, in
/// order, starting from full transmittance.
pub open spec fn spec_transmittance_after(opacities: Seq<int>) -> int
    decreases opacities.len(),
{
    if opacities.len() == 0 {
        FP_ONE as int
    } else {
        spec_new_transmittance(spec_transmittance_after(opacities.drop_last()), opacities.last())
    }
}

/// Across successive blends the transmittance is monotonically
/// non-increasing: every prefix of a sample sequence leaves at least as
/// much transmittance as the whole sequence, and it always stays within
/// the unit range.
pub proof fn lemma_transmittance_chain_monotone(opacities: Seq<int>)
    requires
        forall|i: int| 0 <= i < opacities.len() ==> 0 <= #[trigger] opacities[i] <= FP_ONE,
    ensures
        0 <= spec_transmittance_after(opacities) <= FP_ONE,
        opacities.len() > 0 ==> spec_transmittance_after(opacities) <= spec_transmittance_after(
            opacities.drop_last(),
        ),
    decreases opacities.len(),
{
    if opacities.len() == 0 {
    } else {
        lemma_transmittance_chain_monotone(opacities.drop_last());
        lemma_transmittance_monotone(
            spec_transmittance_after(opacities.drop_last()),
            opacities.last(),
        );
    }
}

/// Integer division distributes over a sum no worse than the exact
/// quotient: `x / d + y / d <= (x + y) / d`.
proof fn lemma_div_sum_lower_bound(x: int, y: int, d: int)
    requires
        0 <= x,
        0 <= y,
        0 < d,
    ensures
        x / d + y / d <= (x + y) / d,
{
    lemma_fundamental_div_mod(x, d);
    lemma_fundamental_div_mod(y, d);
    assert(d * (x / d) + d * (y / d) == d * (x / d + y / d)) by (nonlinear_arith);
    lemma_div_is_ordered(d * (x / d + y / d), x + y, d);
    lemma_div_multiples_vanish(x / d + y / d, d);
}

/// What one blend absorbs, channel contribution plus remaining
/// transmittance, never exceeds the transmittance it started from.
pub proof fn lemma_blend_conserves(c: int, a: int, t: int)
    requires
        0 <= c <= FP_ONE,
        0 <= a <= FP_ONE,
        0 <= t <= FP_ONE,
    ensures
        spec_contribution(c, a, t) + spec_new_transmittance(t, a) <= t,
{
    let k: int = FP_ONE as int;
    // The channel contribution is at most the opacity's own share `a*t/k`.
    assert(c * a * t <= (a * t) * k) by (nonlinear_arith)
        requires
            0 <= c <= k,
            0 <= a,
            0 <= t,
    ;
    lemma_div_is_ordered(c * a * t, (a * t) * k, k * k);
    assert((a * t) * k / (k * k) == a * t / k) by {
        lemma_fundamental_div_mod(a * t, k);
        let q: int = a * t / k;
        let r: int = (a * t) % k;
        assert((a * t) * k == (k * k) * q + r * k) by (nonlinear_arith)
            requires
                a * t == k * q + r,
        ;
        assert(0 <= r * k < k * k) by (nonlinear_arith)
            requires
                0 <= r < k,
                k > 0,
        ;
        vstd::arithmetic::div_mod::lemma_fundamental_div_mod_converse(
            (a * t) * k,
            k * k,
            q,
            r * k,
        );
    };
    // The opacity's share and the surviving share split `t` exactly.
    lemma_div_sum_lower_bound(a * t, t * (k - a), k);
    assert(a * t + t * (k - a) == t * k) by (nonlinear_arith);
    lemma_div_multiples_vanish(t, k);
    assert(t * k == k * t) by (nonlinear_arith);
}

/// One front-to-back blend.
///
/// The sample's channels are weighted by its opacity and the current
/// transmittance and added to the accumulated colour; the transmittance
/// shrinks by the sample's opacity; the accumulated alpha always shows the
/// light absorbed so far, `FP_ONE` minus the transmittance.
pub fn blend(accumulated: Color, sample: Color, transmittance: u64) -> (out: (Color, u64))
    requires
        valid_color(sample),
        transmittance <= FP_ONE,
        accumulated.r + transmittance <= FP_ONE,
        accumulated.g + transmittance <= FP_ONE,
        accumulated.b + transmittance <= FP_ONE,
    ensures
        out.1 == spec_new_transmittance(transmittance as int, sample.a as int),
        out.0.r == accumulated.r + spec_contribution(
            sample.r as int,
            sample.a as int,
            transmittance as int,
        ),
        out.0.g == accumulated.g + spec_contribution(
            sample.g as int,
            sample.a as int,
            transmittance as int,
        ),
        out.0.b == accumulated.b + spec_contribution(
            sample.b as int,
            sample.a as int,
            transmittance as int,
        ),
        out.0.a == FP_ONE - out.1,
        out.1 <= transmittance,
        sample.a == FP_ONE ==> out.1 == 0,
        out.0.r + out.1 <= FP_ONE,
        out.0.g + out.1 <= FP_ONE,
        out.0.b + out.1 <= FP_ONE,
{
    proof {
        lemma_transmittance_monotone(transmittance as int, sample.a as int);
        lemma_blend_conserves(sample.r as int, sample.a as int, transmittance as int);
        lemma_blend_conserves(sample.g as int, sample.a as int, transmittance as int);
        lemma_blend_conserves(sample.b as int, sample.a as int, transmittance as int);
        lemma_opaque_sample_extinguishes(transmittance as int);
        let k: int = FP_ONE as int;
        assert(transmittance as int * (k - sample.a as int) <= k * k) by (nonlinear_arith)
            requires
                transmittance <= FP_ONE,
                sample.a <= FP_ONE,
                k == FP_ONE as int,
        ;
        assert(sample.r as int * sample.a as int <= k * k && sample.g as int * sample.a as int <= k
            * k && sample.b as int * sample.a as int <= k * k) by (nonlinear_arith)
            requires
                sample.r <= FP_ONE,
                sample.g <= FP_ONE,
                sample.b <= FP_ONE,
                sample.a <= FP_ONE,
                k == FP_ONE as int,
        ;
        assert(k * k * (transmittance as int) <= k * k * k) by (nonlinear_arith)
            requires
                transmittance <= FP_ONE,
                k == FP_ONE as int,
                k > 0,
        ;
        assert(forall|p: int|
            0 <= p <= k * k ==> #[trigger] (p * (transmittance as int)) <= k * k * (
            transmittance as int)) by (nonlinear_arith)
            requires
                transmittance as int >= 0,
                k > 0,
        ;
    }
    let new_transmittance: u64 = transmittance * (FP_ONE - sample.a) / FP_ONE;
    let r: u64 = accumulated.r + sample.r * sample.a * transmittance / (FP_ONE * FP_ONE);
    let g: u64 = accumulated.g + sample.g * sample.a * transmittance / (FP_ONE * FP_ONE);
    let b: u64 = accumulated.b + sample.b * sample.a * transmittance / (FP_ONE * FP_ONE);
    (Color { r, g, b, a: FP_ONE - new_transmittance }, new_transmittance)
}

/// One fixed-point channel as an eight-bit output byte: clamped to the
/// unit range, then scaled so that `FP_ONE` maps to 255 exactly.
pub fn channel_to_byte(channel: u64) -> (b: u8)
    ensures
        b as int == (if channel > FP_ONE {
            FP_ONE as int
        } else {
            channel as int
        }) * 255 / (FP_ONE as int),
{
    let clamped: u64 = if channel > FP_ONE {
        FP_ONE
    } else {
        channel
    };
    proof {
        lemma_mul_inequality(clamped as int, FP_ONE as int, 255);
        assert(clamped as int * 255 == 255 * clamped as int) by (nonlinear_arith);
        assert(FP_ONE as int * 255 == 255 * FP_ONE as int) by (nonlinear_arith);
        lemma_div_is_ordered(clamped as int * 255, FP_ONE as int * 255, FP_ONE as int);
        assert((FP_ONE as int * 255) / (FP_ONE as int) == 255) by {
            lemma_div_multiples_vanish(255, FP_ONE as int);
            assert(FP_ONE as int * 255 == (FP_ONE as int) * 255);
        };
    }
    (clamped * 255 / FP_ONE) as u8
}

/// A missing disk sample blends as fully transparent black, so a crossing
/// outside the disk's radial range leaves the accumulated colour unchanged.
pub fn disk_sample_or_transparent(sample: Option<Color>) -> (c: Color)
    ensures
        sample matches Some(s) ==> c == s,
        sample is None ==> c == (Color { r: 0, g: 0, b: 0, a: 0 }),
{
    match sample {
        Some(s) => s,
        None => Color { r: 0, g: 0, b: 0, a: 0 },
    }
}

/// The compositing state a ray carries through its integration loop: the
/// colour accumulated so far and the transmittance still left.
pub struct Compositor {
    accumulated: Color,
    transmittance: u64,
}

impl Compositor {
    /// The colour accumulated so far.
    pub closed spec fn spec_accumulated(self) -> Color {
        self.accumulated
    }

    /// The transmittance still left.
    pub closed spec fn spec_transmittance(self) -> int {
        self.transmittance as int
    }

    /// The compositing invariant: the transmittance is a valid fraction,
    /// each colour channel leaves room for the light still in flight, and
    /// the alpha records the light absorbed so far.
    pub open spec fn wf(self) -> bool {
        &&& self.spec_transmittance() <= FP_ONE
        &&& self.spec_accumulated().r + self.spec_transmittance() <= FP_ONE
        &&& self.spec_accumulated().g + self.spec_transmittance() <= FP_ONE
        &&& self.spec_accumulated().b + self.spec_transmittance() <= FP_ONE
        &&& self.spec_accumulated().a == FP_ONE - self.spec_transmittance()
    }

    /// Opens a fresh compositor: nothing accumulated, full transmittance.
    pub fn new() -> (c: Self)
        ensures
            c.wf(),
            c.spec_accumulated() == (Color { r: 0, g: 0, b: 0, a: 0 }),
            c.spec_transmittance() == FP_ONE,
    {
        Compositor { accumulated: Color { r: 0, g: 0, b: 0, a: 0 }, transmittance: FP_ONE }
    }

    /// Reads the colour accumulated so far.
    pub fn accumulated(&self) -> (c: Color)
        ensures
            c == self.spec_accumulated(),
    {
        self.accumulated
    }

    /// Reads the transmittance still left.
    pub fn transmittance(&self) -> (t: u64)
        ensures
            t as int == self.spec_transmittance(),
    {
        self.transmittance
    }

    /// Blends one sample in.  The transmittance never increases, and a
    /// fully opaque sample extinguishes it.
    pub fn add_sample(&mut self, sample: Color)
        requires
            old(self).wf(),
            valid_color(sample),
        ensures
            final(self).wf(),
            final(self).spec_transmittance() == spec_new_transmittance(
                old(self).spec_transmittance(),
                sample.a as int,
            ),
            final(self).spec_transmittance() <= old(self).spec_transmittance(),
            sample.a == FP_ONE ==> final(self).spec_transmittance() == 0,
            final(self).spec_accumulated().r == old(self).spec_accumulated().r
                + spec_contribution(sample.r as int, sample.a as int, old(self).spec_transmittance()),
            final(self).spec_accumulated().g == old(self).spec_accumulated().g
                + spec_contribution(sample.g as int, sample.a as int, old(self).spec_transmittance()),
            final(self).spec_accumulated().b == old(self).spec_accumulated().b
                + spec_contribution(sample.b as int, sample.a as int, old(self).spec_transmittance()),
    {
        let (accumulated, transmittance) = blend(self.accumulated, sample, self.transmittance);
        self.accumulated = accumulated;
        self.transmittance = transmittance;
    }

    /// Whether so little transmittance is left that further samples cannot
    /// contribute noticeably: the early-exit cutoff at five percent.
    pub fn should_stop(&self) -> (b: bool)
        requires
            self.wf(),
        ensures
            b == (20 * self.spec_transmittance() < FP_ONE),
    {
        20 * self.transmittance < FP_ONE
    }

    /// Closes the loop: blends the ambient background under the remaining
    /// transmittance and yields the final linear colour.
    pub fn finish(self, background: Color) -> (c: Color)
        requires
            self.wf(),
            valid_color(background),
        ensures
            c.r == self.spec_accumulated().r + spec_contribution(
                background.r as int,
                background.a as int,
                self.spec_transmittance(),
            ),
            c.g == self.spec_accumulated().g + spec_contribution(
                background.g as int,
                background.a as int,
                self.spec_transmittance(),
            ),
            c.b == self.spec_accumulated().b + spec_contribution(
                background.b as int,
                background.a as int,
                self.spec_transmittance(),
            ),
            c.a == FP_ONE - spec_new_transmittance(self.spec_transmittance(), background.a as int),
    {
        let (color, _) = blend(self.accumulated, background, self.transmittance);
        color
    }
}

} // verus!

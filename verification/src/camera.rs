//! The camera transform and the per-tick effect of the held keys.
//!
//! The transform is held exactly: translation in whole units, zoom as two
//! tick counts, rotation as signed counts of tenth-radian steps. The scale
//! that a renderer applies is the fraction
//! `999^zoom_in * 1001^zoom_out / 1000^(zoom_in + zoom_out)`, whose
//! numerator and denominator are spec-level integers here, so zooming has
//! an exact compounding law instead of a rounded one.

use vstd::arithmetic::power::lemma_pow1;
use vstd::arithmetic::power::lemma_pow_adds;
use vstd::arithmetic::power::pow;
use vstd::prelude::*;

verus! {

use crate::keys::HeldKeys;

/// The camera's transform, as exact plain values.
#[derive(Clone, Copy, Debug, PartialEq, Eq, Structural)]
pub struct CameraTransform {
    /// Translation along X, in whole units.
    pub x: i64,
    /// Translation along Y, in whole units.
    pub y: i64,
    /// Ticks the zoom-in key has been held; each multiplies the scale by 999/1000.
    pub zoom_in_ticks: u64,
    /// Ticks the zoom-out key has been held; each multiplies the scale by 1001/1000.
    pub zoom_out_ticks: u64,
    /// Rotation about the Z axis, in tenths of a radian.
    pub rot_z_steps: i64,
    /// Rotation about the X axis, in tenths of a radian.
    pub rot_x_steps: i64,
    /// Rotation about the Y axis, in tenths of a radian.
    pub rot_y_steps: i64,
}

/// Net change of the X translation for one tick of `k`.
pub open spec fn x_delta(k: HeldKeys) -> int {
    (if k.arrow_right { 1int } else { 0int }) - (if k.arrow_left { 1int } else { 0int })
}

/// Net change of the Y translation for one tick of `k`.
pub open spec fn y_delta(k: HeldKeys) -> int {
    (if k.arrow_up { 1int } else { 0int }) - (if k.arrow_down { 1int } else { 0int })
}

/// Zoom-in ticks added by one tick of `k`.
pub open spec fn zoom_in_delta(k: HeldKeys) -> int {
    if k.shift_right { 1int } else { 0int }
}

/// Zoom-out ticks added by one tick of `k`.
pub open spec fn zoom_out_delta(k: HeldKeys) -> int {
    if k.shift_left { 1int } else { 0int }
}

/// Net tenth-radian steps about Z added by one tick of `k`.
pub open spec fn rot_z_delta(k: HeldKeys) -> int {
    (if k.super_right { 1int } else { 0int }) - (if k.super_left { 1int } else { 0int })
}

/// Net tenth-radian steps about X added by one tick of `k`.
pub open spec fn rot_x_delta(k: HeldKeys) -> int {
    (if k.alt_right { 1int } else { 0int }) - (if k.alt_left { 1int } else { 0int })
}

/// Net tenth-radian steps about Y added by one tick of `k`.
pub open spec fn rot_y_delta(k: HeldKeys) -> int {
    (if k.bracket_right { 1int } else { 0int }) - (if k.bracket_left { 1int } else { 0int })
}

impl CameraTransform {
    /// The identity transform: no translation, no zoom ticks, no rotation.
    pub fn new() -> (r: CameraTransform)
        ensures
            r.x == 0,
            r.y == 0,
            r.zoom_in_ticks == 0,
            r.zoom_out_ticks == 0,
            r.rot_z_steps == 0,
            r.rot_x_steps == 0,
            r.rot_y_steps == 0,
    {
        CameraTransform {
            x: 0,
            y: 0,
            zoom_in_ticks: 0,
            zoom_out_ticks: 0,
            rot_z_steps: 0,
            rot_x_steps: 0,
            rot_y_steps: 0,
        }
    }

    /// One scheduler tick of the keyboard controller: every held key in the
    /// recognized set applies its constant delta, independently of the
    /// others, and a tick with nothing held changes nothing.
    pub fn apply_held_keys(&mut self, keys: &HeldKeys)
        requires
            i64::MIN < old(self).x < i64::MAX,
            i64::MIN < old(self).y < i64::MAX,
            old(self).zoom_in_ticks < u64::MAX,
            old(self).zoom_out_ticks < u64::MAX,
            i64::MIN < old(self).rot_z_steps < i64::MAX,
            i64::MIN < old(self).rot_x_steps < i64::MAX,
            i64::MIN < old(self).rot_y_steps < i64::MAX,
        ensures
            final(self).x == old(self).x + x_delta(*keys),
            final(self).y == old(self).y + y_delta(*keys),
            final(self).zoom_in_ticks == old(self).zoom_in_ticks + zoom_in_delta(*keys),
            final(self).zoom_out_ticks == old(self).zoom_out_ticks + zoom_out_delta(*keys),
            final(self).rot_z_steps == old(self).rot_z_steps + rot_z_delta(*keys),
            final(self).rot_x_steps == old(self).rot_x_steps + rot_x_delta(*keys),
            final(self).rot_y_steps == old(self).rot_y_steps + rot_y_delta(*keys),
            keys.none_held() ==> *final(self) == *old(self),
    {
        let dx: i64 = (if keys.arrow_right { 1i64 } else { 0i64 }) - (if keys.arrow_left {
            1i64
        } else {
            0i64
        });
        let dy: i64 = (if keys.arrow_up { 1i64 } else { 0i64 }) - (if keys.arrow_down {
            1i64
        } else {
            0i64
        });
        let dzi: u64 = if keys.shift_right { 1u64 } else { 0u64 };
        let dzo: u64 = if keys.shift_left { 1u64 } else { 0u64 };
        let drz: i64 = (if keys.super_right { 1i64 } else { 0i64 }) - (if keys.super_left {
            1i64
        } else {
            0i64
        });
        let drx: i64 = (if keys.alt_right { 1i64 } else { 0i64 }) - (if keys.alt_left {
            1i64
        } else {
            0i64
        });
        let dry: i64 = (if keys.bracket_right { 1i64 } else { 0i64 }) - (if keys.bracket_left {
            1i64
        } else {
            0i64
        });
        self.x = self.x + dx;
        self.y = self.y + dy;
        self.zoom_in_ticks = self.zoom_in_ticks + dzi;
        self.zoom_out_ticks = self.zoom_out_ticks + dzo;
        self.rot_z_steps = self.rot_z_steps + drz;
        self.rot_x_steps = self.rot_x_steps + drx;
        self.rot_y_steps = self.rot_y_steps + dry;
    }
}

/// Numerator of the camera's exact scale fraction.
pub open spec fn scale_numer(t: CameraTransform) -> int {
    pow(999, t.zoom_in_ticks as nat) * pow(1001, t.zoom_out_ticks as nat)
}

/// Denominator of the camera's exact scale fraction.
pub open spec fn scale_denom(t: CameraTransform) -> int {
    pow(1000, (t.zoom_in_ticks + t.zoom_out_ticks) as nat)
}

/// One added zoom-in tick multiplies the scale by exactly 999/1000:
/// the numerator gains a factor 999 and the denominator a factor 1000.
pub proof fn lemma_zoom_in_tick(pre: CameraTransform, post: CameraTransform)
    requires
        post.zoom_in_ticks == pre.zoom_in_ticks + 1,
        post.zoom_out_ticks == pre.zoom_out_ticks,
    ensures
        scale_numer(post) == 999 * scale_numer(pre),
        scale_denom(post) == 1000 * scale_denom(pre),
{
    let zi = pre.zoom_in_ticks as nat;
    let zo = pre.zoom_out_ticks as nat;
    let s = (pre.zoom_in_ticks + pre.zoom_out_ticks) as nat;
    lemma_pow_adds(999, zi, 1);
    lemma_pow1(999);
    assert(pow(999, (zi + 1) as nat) * pow(1001, zo) == 999 * (pow(999, zi) * pow(1001, zo)))
        by (nonlinear_arith)
        requires
            pow(999, (zi + 1) as nat) == pow(999, zi) * 999,
    ;
    lemma_pow_adds(1000, s, 1);
    lemma_pow1(1000);
    assert((post.zoom_in_ticks + post.zoom_out_ticks) as nat == s + 1);
}

/// One added zoom-out tick multiplies the scale by exactly 1001/1000:
/// the numerator gains a factor 1001 and the denominator a factor 1000.
pub proof fn lemma_zoom_out_tick(pre: CameraTransform, post: CameraTransform)
    requires
        post.zoom_in_ticks == pre.zoom_in_ticks,
        post.zoom_out_ticks == pre.zoom_out_ticks + 1,
    ensures
        scale_numer(post) == 1001 * scale_numer(pre),
        scale_denom(post) == 1000 * scale_denom(pre),
{
    let zi = pre.zoom_in_ticks as nat;
    let zo = pre.zoom_out_ticks as nat;
    let s = (pre.zoom_in_ticks + pre.zoom_out_ticks) as nat;
    lemma_pow_adds(1001, zo, 1);
    lemma_pow1(1001);
    assert(pow(999, zi) * pow(1001, (zo + 1) as nat) == 1001 * (pow(999, zi) * pow(1001, zo)))
        by (nonlinear_arith)
        requires
            pow(1001, (zo + 1) as nat) == pow(1001, zo) * 1001,
    ;
    lemma_pow_adds(1000, s, 1);
    lemma_pow1(1000);
    assert((post.zoom_in_ticks + post.zoom_out_ticks) as nat == s + 1);
}

/// Zooming in compounds: `n` added zoom-in ticks multiply the scale by
/// exactly `999^n / 1000^n`.
pub proof fn lemma_zoom_in_compounds(pre: CameraTransform, post: CameraTransform, n: nat)
    requires
        post.zoom_in_ticks == pre.zoom_in_ticks + n,
        post.zoom_out_ticks == pre.zoom_out_ticks,
    ensures
        scale_numer(post) == scale_numer(pre) * pow(999, n),
        scale_denom(post) == scale_denom(pre) * pow(1000, n),
{
    let zi = pre.zoom_in_ticks as nat;
    let zo = pre.zoom_out_ticks as nat;
    let s = (pre.zoom_in_ticks + pre.zoom_out_ticks) as nat;
    lemma_pow_adds(999, zi, n);
    assert(pow(999, (zi + n) as nat) * pow(1001, zo) == (pow(999, zi) * pow(1001, zo)) * pow(
        999,
        n,
    )) by (nonlinear_arith)
        requires
            pow(999, (zi + n) as nat) == pow(999, zi) * pow(999, n),
    ;
    lemma_pow_adds(1000, s, n);
    assert((post.zoom_in_ticks + post.zoom_out_ticks) as nat == s + n);
}

/// Zooming out compounds: `n` added zoom-out ticks multiply the scale by
/// exactly `1001^n / 1000^n`.
pub proof fn lemma_zoom_out_compounds(pre: CameraTransform, post: CameraTransform, n: nat)
    requires
        post.zoom_in_ticks == pre.zoom_in_ticks,
        post.zoom_out_ticks == pre.zoom_out_ticks + n,
    ensures
        scale_numer(post) == scale_numer(pre) * pow(1001, n),
        scale_denom(post) == scale_denom(pre) * pow(1000, n),
{
    let zi = pre.zoom_in_ticks as nat;
    let zo = pre.zoom_out_ticks as nat;
    let s = (pre.zoom_in_ticks + pre.zoom_out_ticks) as nat;
    lemma_pow_adds(1001, zo, n);
    assert(pow(999, zi) * pow(1001, (zo + n) as nat) == (pow(999, zi) * pow(1001, zo)) * pow(
        1001,
        n,
    )) by (nonlinear_arith)
        requires
            pow(1001, (zo + n) as nat) == pow(1001, zo) * pow(1001, n),
    ;
    lemma_pow_adds(1000, s, n);
    assert((post.zoom_in_ticks + post.zoom_out_ticks) as nat == s + n);
}

} // verus!

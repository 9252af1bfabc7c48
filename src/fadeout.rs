//! The screen fade: an overlay that turns opaque and clear again over a
//! fixed time, asking for a state change when it is darkest.

use vstd::prelude::*;
use crate::ascii::{spawn_ascii_sprite, Color, Sprite};
use crate::game::GameState;
use crate::geometry::Pos3;

verus! {

/// Length of a fade, in microseconds.
pub const FADE_DURATION: u64 = 1_000_000;

/// Side of the overlay, in world units: far wider than any view.
pub const FADE_SIZE: u32 = 100_000_000;

/// Render depth of the overlay: above everything else.
pub const FADE_DEPTH: i64 = 999;

/// A running fade. `alpha` is the overlay's opacity in thousandths.
#[derive(Clone, Copy, Debug, PartialEq, Eq, Structural)]
pub struct ScreenFade {
    pub alpha: u16,
    pub sent: bool,
    pub next_state: Option<GameState>,
    pub elapsed: u64,
    pub duration: u64,
    pub sprite: Sprite,
}

/// What one tick of a fade asks of the game.
#[derive(Clone, Copy, Debug, PartialEq, Eq, Structural)]
pub struct FadeStep {
    /// The state to change to, on the tick that passes the midpoint.
    pub next_state: Option<GameState>,
    /// The fade has run its time and is to be removed.
    pub finished: bool,
}

/// Opacity, in thousandths, after `elapsed` of `duration`: rising linearly
/// to full at the midpoint, then falling linearly to none at the end.
pub open spec fn alpha_at(elapsed: int, duration: int) -> int {
    if 2 * elapsed < duration {
        (2000 * elapsed) / duration
    } else {
        (2000 * (duration - elapsed)) / duration
    }
}

/// Computes `alpha_at` for `elapsed <= duration`.
fn fade_alpha(elapsed: u64, duration: u64) -> (a: u16)
    requires
        0 < duration,
        elapsed <= duration,
    ensures
        a == alpha_at(elapsed as int, duration as int),
        a <= 1000,
{
    let e: u128 = elapsed as u128;
    let d: u128 = duration as u128;
    let num: u128 = if 2 * e < d { 2000 * e } else { 2000 * (d - e) };
    assert(num / d <= 1000) by (nonlinear_arith)
        requires
            0 < d,
            num <= 1000 * d,
    ;
    (num / d) as u16
}

impl ScreenFade {
    pub open spec fn wf(&self) -> bool {
        &&& 0 < self.duration
        &&& self.elapsed <= self.duration
        &&& self.alpha == alpha_at(self.elapsed as int, self.duration as int)
        &&& self.sprite.color.a == self.alpha
        &&& self.sent == (2 * self.elapsed > self.duration)
    }

    /// Elapsed time after `dt` more microseconds; the timer stops at its end.
    pub open spec fn elapsed_after(&self, dt: u64) -> int {
        if self.elapsed + dt >= self.duration {
            self.duration as int
        } else {
            self.elapsed + dt
        }
    }

    /// The state change that a tick of `dt` asks for: the pending state, on
    /// the first tick that takes the fade past its midpoint.
    pub open spec fn request_after(&self, dt: u64) -> Option<GameState> {
        if !self.sent && 2 * self.elapsed_after(dt) > self.duration {
            self.next_state
        } else {
            None
        }
    }

    /// A tick of `dt` brings the timer to its end.
    pub open spec fn finishes_after(&self, dt: u64) -> bool {
        self.elapsed < self.duration && self.elapsed + dt >= self.duration
    }

    /// The fade after a tick of `dt`.
    pub open spec fn after_tick(&self, dt: u64) -> ScreenFade {
        let e = self.elapsed_after(dt);
        ScreenFade {
            alpha: alpha_at(e, self.duration as int) as u16,
            sent: self.sent || 2 * e > self.duration,
            elapsed: e as u64,
            sprite: Sprite {
                color: Color { a: alpha_at(e, self.duration as int) as u16, ..self.sprite.color },
                ..self.sprite
            },
            ..*self
        }
    }

    /// Advances the fade by `dt` microseconds.
    pub fn tick(&mut self, dt: u64) -> (step: FadeStep)
        requires
            old(self).wf(),
        ensures
            final(self).wf(),
            *final(self) == old(self).after_tick(dt),
            step == (FadeStep {
                next_state: old(self).request_after(dt),
                finished: old(self).finishes_after(dt),
            }),
    {
        let finished = self.elapsed < self.duration && dt >= self.duration - self.elapsed;
        if dt >= self.duration - self.elapsed {
            self.elapsed = self.duration;
        } else {
            self.elapsed = self.elapsed + dt;
        }
        self.alpha = fade_alpha(self.elapsed, self.duration);
        self.sprite.color.a = self.alpha;
        let mut next_state: Option<GameState> = None;
        if self.elapsed > self.duration - self.elapsed && !self.sent {
            next_state = self.next_state;
            self.sent = true;
        }
        FadeStep { next_state, finished }
    }
}

/// A fade at its start that will ask for `next_state` at its midpoint.
pub open spec fn fresh_fade(next_state: Option<GameState>) -> ScreenFade {
    ScreenFade {
        alpha: 0,
        sent: false,
        next_state,
        elapsed: 0,
        duration: FADE_DURATION,
        sprite: Sprite {
            index: 0,
            color: Color { r: 100, g: 100, b: 150, a: 0 },
            translation: Pos3 { x: 0, y: 0, z: FADE_DEPTH },
            size: FADE_SIZE,
            visible: true,
        },
    }
}

/// A new fade, at its start, that will ask for `next_state` (if any) at its
/// midpoint.
pub fn create_fadeout(next_state: Option<GameState>) -> (f: ScreenFade)
    ensures
        f.wf(),
        f == fresh_fade(next_state),
{
    let color = Color { r: 100, g: 100, b: 150, a: 0 };
    let mut sprite = spawn_ascii_sprite(0, color, Pos3 { x: 0, y: 0, z: FADE_DEPTH });
    sprite.size = FADE_SIZE;
    ScreenFade { alpha: 0, sent: false, next_state, elapsed: 0, duration: FADE_DURATION, sprite }
}

/// The fade after running ticks of `dts`, one after another.
pub open spec fn run_fade(f: ScreenFade, dts: Seq<u64>) -> ScreenFade
    decreases dts.len(),
{
    if dts.len() == 0 {
        f
    } else {
        run_fade(f.after_tick(dts[0]), dts.drop_first())
    }
}

/// How many of the ticks of `dts` ask for a state change.
pub open spec fn run_requests(f: ScreenFade, dts: Seq<u64>) -> nat
    decreases dts.len(),
{
    if dts.len() == 0 {
        0
    } else {
        (if f.request_after(dts[0]) is Some { 1nat } else { 0nat }) + run_requests(
            f.after_tick(dts[0]),
            dts.drop_first(),
        )
    }
}

/// The opacity of a fade is nothing at its start and at its end, and full
/// at its midpoint; it never exceeds full.
pub proof fn lemma_fade_alpha_profile(duration: int, elapsed: int)
    requires
        0 < duration,
        0 <= elapsed <= duration,
    ensures
        alpha_at(0, duration) == 0,
        alpha_at(duration, duration) == 0,
        duration % 2 == 0 ==> alpha_at(duration / 2, duration) == 1000,
        0 <= alpha_at(elapsed, duration) <= 1000,
{
    if duration % 2 == 0 {
        assert((2000 * (duration - duration / 2)) / duration == 1000) by (nonlinear_arith)
            requires
                0 < duration,
                duration % 2 == 0,
        ;
    }
    if 2 * elapsed < duration {
        assert(0 <= (2000 * elapsed) / duration <= 1000) by (nonlinear_arith)
            requires
                0 < duration,
                0 <= elapsed,
                2 * elapsed < duration,
        ;
    } else {
        assert(0 <= (2000 * (duration - elapsed)) / duration <= 1000) by (nonlinear_arith)
            requires
                0 < duration,
                elapsed <= duration,
                2 * elapsed >= duration,
        ;
    }
}

/// A fade asks for its state change only on the tick that takes it from at
/// most half its time to past half its time.
pub proof fn lemma_fade_requests_at_midpoint(f: ScreenFade, dt: u64)
    requires
        f.wf(),
        f.request_after(dt) is Some,
    ensures
        2 * f.elapsed <= f.duration,
        2 * f.after_tick(dt).elapsed > f.duration,
        f.request_after(dt) == f.next_state,
{
}

/// Over any run of ticks, a fade asks for its state change exactly once if
/// it has one and the run takes it past its midpoint, and never otherwise.
pub proof fn lemma_fade_requests_once(f: ScreenFade, dts: Seq<u64>)
    requires
        f.wf(),
    ensures
        run_fade(f, dts).wf(),
        f.sent ==> run_fade(f, dts).sent,
        run_requests(f, dts) == (if f.next_state is Some && !f.sent && run_fade(f, dts).sent {
            1nat
        } else {
            0nat
        }),
    decreases dts.len(),
{
    if dts.len() > 0 {
        let f1 = f.after_tick(dts[0]);
        lemma_fade_alpha_profile(f.duration as int, f1.elapsed as int);
        lemma_fade_requests_once(f1, dts.drop_first());
    }
}

} // verus!

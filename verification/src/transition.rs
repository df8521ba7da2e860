//! The screen-transition controller: a two-direction alpha ramp.
//!
//! The overlay's opacity (`alpha`) is a fixed-point fraction in hundredths:
//! `0` is fully clear, [`ALPHA_MAX`] fully opaque. A fade moves alpha by one
//! hundredth per tick, so a full fade takes one hundred ticks. `finished` is
//! a single-tick pulse: it is true exactly on the tick a ramp reaches its
//! boundary and false on every other tick of that ramp, so a consumer must
//! observe it the same tick or miss it.
use vstd::prelude::*;

verus! {

/// Full opacity of the transition overlay, in hundredths.
pub const ALPHA_MAX: i64 = 100;

/// Which direction, if any, the transition overlay is ramping.
#[derive(Clone, Copy, PartialEq, Eq, Structural, Debug)]
pub enum TransitionKind {
    /// No ramp: alpha and the finished flag keep their values.
    Idle,
    /// The overlay fades away: alpha ramps down towards fully clear.
    FadeIn,
    /// The overlay closes in: alpha ramps up towards fully opaque.
    FadeOut,
}

/// The transition controller's state.
#[derive(Clone, Copy, PartialEq, Eq, Structural, Debug)]
pub struct Transition {
    pub kind: TransitionKind,
    /// Overlay opacity in hundredths, always within `[0, ALPHA_MAX]`.
    pub alpha: i64,
    /// True exactly on the tick a ramp reaches its boundary.
    pub finished: bool,
}

/// Mathematical state of the transition controller.
#[verifier::ext_equal]
pub ghost struct TransitionView {
    pub kind: TransitionKind,
    pub alpha: int,
    pub finished: bool,
}

impl View for Transition {
    type V = TransitionView;

    open spec fn view(&self) -> TransitionView {
        TransitionView { kind: self.kind, alpha: self.alpha as int, finished: self.finished }
    }
}

/// One tick of the alpha ramp. A fade moves alpha one hundredth towards its
/// boundary, clamped there, and pulses `finished` exactly on the tick the
/// boundary is reached; an idle transition changes nothing.
pub open spec fn transition_step(t: TransitionView) -> TransitionView {
    match t.kind {
        TransitionKind::Idle => t,
        TransitionKind::FadeIn => {
            if t.alpha > 0 {
                TransitionView { kind: t.kind, alpha: t.alpha - 1, finished: t.alpha - 1 == 0 }
            } else {
                TransitionView { kind: t.kind, alpha: t.alpha, finished: false }
            }
        },
        TransitionKind::FadeOut => {
            if t.alpha < ALPHA_MAX as int {
                TransitionView {
                    kind: t.kind,
                    alpha: t.alpha + 1,
                    finished: t.alpha + 1 == ALPHA_MAX as int,
                }
            } else {
                TransitionView { kind: t.kind, alpha: t.alpha, finished: false }
            }
        },
    }
}

/// The ramp iterated for `n` ticks.
pub open spec fn transition_iter(t: TransitionView, n: nat) -> TransitionView
    decreases n,
{
    if n == 0 {
        t
    } else {
        transition_step(transition_iter(t, (n - 1) as nat))
    }
}

impl Transition {
    /// Alpha never leaves `[0, ALPHA_MAX]`.
    pub open spec fn wf(self) -> bool {
        0 <= self@.alpha <= ALPHA_MAX as int
    }

    /// The transition state armed at world construction: the intro begins
    /// fully obscured and un-fades.
    pub fn new() -> (r: Transition)
        ensures
            r@ == (TransitionView {
                kind: TransitionKind::FadeIn,
                alpha: ALPHA_MAX as int,
                finished: false,
            }),
            r.wf(),
    {
        Transition { kind: TransitionKind::FadeIn, alpha: ALPHA_MAX, finished: false }
    }

    /// Advances the ramp by one tick.
    pub fn tick(&mut self)
        requires
            old(self).wf(),
        ensures
            final(self)@ == transition_step(old(self)@),
            final(self).wf(),
    {
        match self.kind {
            TransitionKind::Idle => {},
            TransitionKind::FadeIn => {
                self.finished = false;
                if self.alpha > 0 {
                    self.alpha = self.alpha - 1;
                    if self.alpha == 0 {
                        self.finished = true;
                    }
                }
            },
            TransitionKind::FadeOut => {
                self.finished = false;
                if self.alpha < ALPHA_MAX {
                    self.alpha = self.alpha + 1;
                    if self.alpha == ALPHA_MAX {
                        self.finished = true;
                    }
                }
            },
        }
    }
}

/// Transition bounds: however many ticks a ramp runs, alpha stays within
/// `[0, ALPHA_MAX]`.
pub proof fn lemma_alpha_bounds(t: TransitionView, n: nat)
    requires
        0 <= t.alpha <= ALPHA_MAX as int,
    ensures
        0 <= transition_iter(t, n).alpha <= ALPHA_MAX as int,
    decreases n,
{
    if n > 0 {
        lemma_alpha_bounds(t, (n - 1) as nat);
    }
}

/// A fade leaves the ramp direction alone; only the game loop re-arms it.
pub proof fn lemma_kind_stable(t: TransitionView, n: nat)
    ensures
        transition_iter(t, n).kind == t.kind,
    decreases n,
{
    if n > 0 {
        lemma_kind_stable(t, (n - 1) as nat);
    }
}

/// Finished pulse, fade-in direction: ramping down from full opacity, alpha
/// reaches zero after exactly `ALPHA_MAX` ticks and stays there, and
/// `finished` is true on that boundary tick alone.
pub proof fn lemma_fade_in_pulse(t: TransitionView, n: nat)
    requires
        t.kind == TransitionKind::FadeIn,
        t.alpha == ALPHA_MAX as int,
    ensures
        transition_iter(t, n).alpha == if n <= ALPHA_MAX as int {
            ALPHA_MAX - n
        } else {
            0int
        },
        n >= 1 ==> (transition_iter(t, n).finished <==> n == ALPHA_MAX as int),
    decreases n,
{
    if n > 0 {
        lemma_fade_in_pulse(t, (n - 1) as nat);
        lemma_kind_stable(t, (n - 1) as nat);
    }
}

/// Finished pulse, fade-out direction: ramping up from fully clear, alpha
/// reaches full opacity after exactly `ALPHA_MAX` ticks and stays there, and
/// `finished` is true on that boundary tick alone.
pub proof fn lemma_fade_out_pulse(t: TransitionView, n: nat)
    requires
        t.kind == TransitionKind::FadeOut,
        t.alpha == 0,
    ensures
        transition_iter(t, n).alpha == if n <= ALPHA_MAX as int {
            n as int
        } else {
            ALPHA_MAX as int
        },
        n >= 1 ==> (transition_iter(t, n).finished <==> n == ALPHA_MAX as int),
    decreases n,
{
    if n > 0 {
        lemma_fade_out_pulse(t, (n - 1) as nat);
        lemma_kind_stable(t, (n - 1) as nat);
    }
}

} // verus!

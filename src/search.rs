use vstd::prelude::*;

verus! {

/// Where the first search starts, and returns to on reset.
pub const START_X: i32 = 5;

/// Where the second search starts, and returns to on reset.
pub const START_X2: i32 = -5;

/// The two root searches that run side by side: each holds its current
/// estimate of a root. The scalar type is left to the caller.
#[derive(Clone, Copy, Debug)]
pub struct RootSearches<T> {
    pub x: T,
    pub x2: T,
}

/// One frame's update when each step is the function `step`: a reset wins,
/// otherwise a pressed step key updates both estimates.
pub open spec fn frame_next<T>(
    s: RootSearches<T>,
    step_pressed: bool,
    reset_pressed: bool,
    start: RootSearches<T>,
    step: spec_fn(T) -> T,
) -> RootSearches<T> {
    if reset_pressed {
        start
    } else if step_pressed {
        RootSearches { x: step(s.x), x2: step(s.x2) }
    } else {
        s
    }
}

/// The estimates after the frames whose key presses (step, reset) are `keys`.
pub open spec fn run_frames<T>(
    s: RootSearches<T>,
    keys: Seq<(bool, bool)>,
    start: RootSearches<T>,
    step: spec_fn(T) -> T,
) -> RootSearches<T>
    decreases keys.len(),
{
    if keys.len() == 0 {
        s
    } else {
        run_frames(frame_next(s, keys[0].0, keys[0].1, start, step), keys.drop_first(), start, step)
    }
}

/// A reset forgets the history: from whatever state, a run of frames that
/// begins with a reset ends where the same run ends from the start state,
/// so every estimate after a reset depends only on the frames since.
pub proof fn lemma_reset_forgets_history<T>(
    s: RootSearches<T>,
    keys: Seq<(bool, bool)>,
    start: RootSearches<T>,
    step: spec_fn(T) -> T,
)
    requires
        keys.len() > 0,
        keys[0].1,
    ensures
        run_frames(s, keys, start, step) == run_frames(start, keys.drop_first(), start, step),
{
}

impl<T: Copy> RootSearches<T> {
    pub fn new(x: T, x2: T) -> (r: Self)
        ensures
            r.x == x,
            r.x2 == x2,
    {
        RootSearches { x, x2 }
    }

    /// Advances both searches by one application of `step` (one
    /// Newton-Raphson update), each independently of the other.
    pub fn step_both<F: Fn(T) -> T>(&mut self, step: &F)
        requires
            step.requires((old(self).x,)),
            step.requires((old(self).x2,)),
        ensures
            step.ensures((old(self).x,), final(self).x),
            step.ensures((old(self).x2,), final(self).x2),
    {
        let x = step(self.x);
        let x2 = step(self.x2);
        self.x = x;
        self.x2 = x2;
    }

    /// Discards all progress and puts both searches back at `start`.
    pub fn reset(&mut self, start: Self)
        ensures
            final(self).x == start.x,
            final(self).x2 == start.x2,
    {
        self.x = start.x;
        self.x2 = start.x2;
    }

    /// One frame's update: a step if the step key was pressed, then a reset
    /// if the reset key was pressed. A reset therefore wins over a step in
    /// the same frame; with neither key the estimates are kept.
    pub fn on_frame<F: Fn(T) -> T>(
        &mut self,
        step_pressed: bool,
        reset_pressed: bool,
        start: Self,
        step: &F,
    )
        requires
            step_pressed ==> step.requires((old(self).x,)) && step.requires((old(self).x2,)),
        ensures
            reset_pressed ==> final(self).x == start.x && final(self).x2 == start.x2,
            !reset_pressed && step_pressed ==> step.ensures((old(self).x,), final(self).x)
                && step.ensures((old(self).x2,), final(self).x2),
            !reset_pressed && !step_pressed ==> final(self).x == old(self).x && final(self).x2
                == old(self).x2,
            forall|g: spec_fn(T) -> T|
                (forall|v: T, w: T| step.ensures((v,), w) ==> w == g(v)) ==> *final(self)
                    == frame_next(*old(self), step_pressed, reset_pressed, start, g),
    {
        if step_pressed {
            self.step_both(step);
        }
        if reset_pressed {
            self.reset(start);
        }
    }
}

} // verus!

use vstd::prelude::*;

verus! {

/// Step of the angle about the first axis per tick, in hundredths of a radian.
pub const STEP_X_CENTIRAD: u64 = 1;

/// Step of the angle about the second axis per tick, in hundredths of a radian.
pub const STEP_Y_CENTIRAD: u64 = 2;

/// The two rotation angles, in hundredths of a radian. They only grow: no
/// wrap-around is applied, as sine and cosine make it unnecessary.
#[derive(Clone, Copy, Debug, PartialEq, Eq)]
pub struct RotationState {
    pub angle_x_centirad: u64,
    pub angle_y_centirad: u64,
}

/// The angles as integers: `(angle_x, angle_y)` in hundredths of a radian.
pub open spec fn angles(s: RotationState) -> (int, int) {
    (s.angle_x_centirad as int, s.angle_y_centirad as int)
}

/// The angles one tick after `a`.
pub open spec fn next_angles(a: (int, int)) -> (int, int) {
    (a.0 + STEP_X_CENTIRAD, a.1 + STEP_Y_CENTIRAD)
}

/// The angles after `n` ticks from `a`.
pub open spec fn angles_after(a: (int, int), n: nat) -> (int, int)
    decreases n,
{
    if n == 0 {
        a
    } else {
        next_angles(angles_after(a, (n - 1) as nat))
    }
}

impl RotationState {
    /// Both angles at zero.
    pub fn new() -> (r: RotationState)
        ensures
            angles(r) == (0int, 0int),
    {
        RotationState { angle_x_centirad: 0, angle_y_centirad: 0 }
    }

    /// Another tick fits in the counters.
    pub open spec fn can_tick(&self) -> bool {
        self.angle_x_centirad + STEP_X_CENTIRAD <= u64::MAX
            && self.angle_y_centirad + STEP_Y_CENTIRAD <= u64::MAX
    }

    /// Whether another tick fits in the counters.
    pub fn has_room(&self) -> (r: bool)
        ensures
            r == self.can_tick(),
    {
        self.angle_x_centirad <= u64::MAX - STEP_X_CENTIRAD && self.angle_y_centirad <= u64::MAX
            - STEP_Y_CENTIRAD
    }

    /// Advances both angles by their step.
    pub fn tick(&mut self)
        requires
            old(self).can_tick(),
        ensures
            angles(*final(self)) == next_angles(angles(*old(self))),
    {
        self.angle_x_centirad = self.angle_x_centirad + STEP_X_CENTIRAD;
        self.angle_y_centirad = self.angle_y_centirad + STEP_Y_CENTIRAD;
    }
}

/// After `n` ticks from the start, the first angle is `0.01 * n` radians and
/// the second `0.02 * n`.
pub proof fn lemma_angles_after_ticks(n: nat)
    ensures
        angles_after((0, 0), n) == (n as int, 2 * (n as int)),
    decreases n,
{
    if n > 0 {
        lemma_angles_after_ticks((n - 1) as nat);
    }
}

} // verus!

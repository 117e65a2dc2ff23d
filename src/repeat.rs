use vstd::prelude::*;

verus! {

/// How long a direction must be held before auto-repeat starts (µs).
pub const REPEAT_DELAY: u64 = 150_000;

/// Repeat period while the direction has been held past the delay for less
/// than `MEDIUM_AFTER` (µs).
pub const REPEAT_SLOW: u64 = 80_000;

/// Repeat period from `MEDIUM_AFTER` past the delay (µs).
pub const REPEAT_MEDIUM: u64 = 50_000;

/// Repeat period from `FAST_AFTER` past the delay (µs).
pub const REPEAT_FAST: u64 = 30_000;

/// Time past the delay from which the medium period applies (µs).
pub const MEDIUM_AFTER: u64 = 400_000;

/// Time past the delay from which the fast period applies (µs).
pub const FAST_AFTER: u64 = 900_000;

/// The repeat period once a direction has been held `held_after_delay` past
/// the initial delay.
pub open spec fn repeat_period(held_after_delay: int) -> u64 {
    if held_after_delay >= FAST_AFTER {
        REPEAT_FAST
    } else if held_after_delay >= MEDIUM_AFTER {
        REPEAT_MEDIUM
    } else {
        REPEAT_SLOW
    }
}

/// The repeat period once a direction has been held `held_after_delay` past
/// the initial delay.
pub fn repeat_interval(held_after_delay: u64) -> (r: u64)
    ensures
        r == repeat_period(held_after_delay as int),
        r > 0,
{
    if held_after_delay >= FAST_AFTER {
        REPEAT_FAST
    } else if held_after_delay >= MEDIUM_AFTER {
        REPEAT_MEDIUM
    } else {
        REPEAT_SLOW
    }
}

/// The direction asked for by the held keys: −1 for left alone, +1 for right
/// alone, 0 for both or neither.
pub open spec fn held_dir(left: bool, right: bool) -> i32 {
    if left && !right {
        -1i32
    } else if right && !left {
        1
    } else {
        0
    }
}

/// The direction asked for by the held keys, as `held_dir`.
pub fn held_direction(left: bool, right: bool) -> (r: i32)
    ensures
        r == held_dir(left, right),
{
    if left && !right {
        -1
    } else if right && !left {
        1
    } else {
        0
    }
}

/// State of the horizontal auto-repeat: the direction committed on the last
/// tick, how long it has been held, and the time banked toward the next
/// repeated move.
#[derive(Clone, Copy, Debug, PartialEq, Eq, Structural)]
pub struct HorizontalRepeat {
    pub dir: i32,
    pub hold_time: u64,
    pub repeat_timer: u64,
}

impl HorizontalRepeat {
    pub open spec fn neutral() -> HorizontalRepeat {
        HorizontalRepeat { dir: 0, hold_time: 0, repeat_timer: 0 }
    }

    /// The state after one tick of `dt` with direction `dir` held, and
    /// whether the tick is a fresh press that moves at once.
    pub open spec fn advanced(self, dir: i32, dt: u64) -> (HorizontalRepeat, bool) {
        if dir == 0 {
            (HorizontalRepeat::neutral(), false)
        } else if dir != self.dir {
            (HorizontalRepeat { dir, hold_time: 0, repeat_timer: 0 }, true)
        } else {
            let hold = self.hold_time.saturating_add(dt);
            if hold < REPEAT_DELAY {
                (HorizontalRepeat { hold_time: hold, ..self }, false)
            } else {
                (
                    HorizontalRepeat {
                        hold_time: hold,
                        repeat_timer: self.repeat_timer.saturating_add(dt),
                        ..self
                    },
                    false,
                )
            }
        }
    }

    /// Whether a repeated move is due, and the period it costs.
    pub open spec fn repeat_due(self) -> bool {
        self.hold_time >= REPEAT_DELAY && self.repeat_timer >= self.period()
    }

    /// The repeat period that applies at the current hold time.
    pub open spec fn period(self) -> u64 {
        repeat_period(self.hold_time - REPEAT_DELAY)
    }

    /// The neutral state: no direction held.
    pub fn new() -> (r: HorizontalRepeat)
        ensures
            r == HorizontalRepeat::neutral(),
    {
        HorizontalRepeat { dir: 0, hold_time: 0, repeat_timer: 0 }
    }

    /// Advances by one tick of `dt` with direction `dir` held. Returns true on
    /// a fresh press (a new non-zero direction), which moves once at once.
    pub fn advance(&mut self, dir: i32, dt: u64) -> (fresh: bool)
        ensures
            (*final(self), fresh) == old(self).advanced(dir, dt),
    {
        if dir == 0 {
            *self = HorizontalRepeat::new();
            return false;
        }
        if dir != self.dir {
            *self = HorizontalRepeat { dir, hold_time: 0, repeat_timer: 0 };
            return true;
        }
        self.hold_time = self.hold_time.saturating_add(dt);
        if self.hold_time < REPEAT_DELAY {
            return false;
        }
        self.repeat_timer = self.repeat_timer.saturating_add(dt);
        false
    }

    /// Spends one repeat period from the banked time if a repeated move is
    /// due, and tells whether it was.
    pub fn take_period(&mut self) -> (due: bool)
        ensures
            due == old(self).repeat_due(),
            *final(self) == if due {
                HorizontalRepeat {
                    repeat_timer: (old(self).repeat_timer - old(self).period()) as u64,
                    ..*old(self)
                }
            } else {
                *old(self)
            },
    {
        if self.hold_time < REPEAT_DELAY {
            return false;
        }
        let period = repeat_interval(self.hold_time - REPEAT_DELAY);
        if self.repeat_timer >= period {
            self.repeat_timer = self.repeat_timer - period;
            true
        } else {
            false
        }
    }
}

} // verus!

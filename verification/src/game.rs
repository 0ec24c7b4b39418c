//! The simulation core: the shared swing flag, the ball's state, and the
//! per-tick update and strike-back rules.

use vstd::prelude::*;

verus! {

/// Length of the track, in thousandths: 0 is the left paddle's centre and
/// `TRACK` the right paddle's centre.
pub const TRACK: i64 = 1000;

/// Half the width of a paddle's hit zone, in thousandths of the track.
pub const HALF_PADDLE: i64 = 100;

/// A hit counts as "just timing" when the ball is nearer to the paddle's
/// centre than half the hit-zone half-width.
pub const JUST_MARGIN: i64 = 50;

/// The ball's starting speed, in thousandths of the track per tick.
pub const START_SPEED: i64 = 10;

/// The one-shot flag through which the input side reports a swing to the
/// simulation. The input side only raises it; the simulation consumes it,
/// reading and clearing in one step, so a swing registers for at most one
/// tick.
pub struct SwingSignal {
    armed: bool,
}

impl SwingSignal {
    /// Whether a swing is currently pending.
    pub closed spec fn is_set(self) -> bool {
        self.armed
    }

    /// A fresh signal with no swing pending.
    pub fn new() -> (s: SwingSignal)
        ensures
            !s.is_set(),
    {
        SwingSignal { armed: false }
    }

    /// The input side's half: record that a swing arrived. Swings arriving
    /// between ticks coalesce into one pending swing.
    pub fn record(&mut self)
        ensures
            final(self).is_set(),
    {
        self.armed = true;
    }

    /// The simulation's half: report whether a swing was pending and clear
    /// the flag, as one step.
    pub fn take(&mut self) -> (was: bool)
        ensures
            was == old(self).is_set(),
            !final(self).is_set(),
    {
        let was = self.armed;
        self.armed = false;
        was
    }
}

/// Whether `pos` lies in the left paddle's hit zone.
pub open spec fn in_left_zone(pos: int) -> bool {
    -HALF_PADDLE <= pos < HALF_PADDLE
}

/// Whether `pos` lies in the right paddle's hit zone.
pub open spec fn in_right_zone(pos: int) -> bool {
    TRACK - HALF_PADDLE <= pos < TRACK + HALF_PADDLE
}

/// Whether the ball at `pos` is still on the track: a round continues
/// exactly while this holds.
pub open spec fn in_bounds(pos: int) -> bool {
    -HALF_PADDLE <= pos <= TRACK + HALF_PADDLE
}

/// Whether a tick registers a hit: a swing was pending and the advanced
/// position lies in either hit zone.
pub open spec fn hit_registered(pos: int, swing: bool) -> bool {
    swing && (in_left_zone(pos) || in_right_zone(pos))
}

/// The speed a tick leaves behind: flipped when a hit registers at the
/// advanced position `pos`, unchanged otherwise.
pub open spec fn speed_after_tick(speed: int, pos: int, swing: bool) -> int {
    if hit_registered(pos, swing) {
        -speed
    } else {
        speed
    }
}

/// The distance from the ball at `pos` to the centre of the nearer paddle:
/// the left one when the ball is in the track's left half, else the right
/// one.
pub open spec fn judgement(pos: int) -> int {
    let d = if pos < TRACK / 2 {
        pos
    } else {
        pos - TRACK
    };
    if d >= 0 {
        d
    } else {
        -d
    }
}

/// Law: the judgement distance really is the distance to the nearer of the
/// two paddle centres, whichever half of the track the ball is in.
pub proof fn lemma_judgement_is_nearer_distance(pos: int)
    ensures
        judgement(pos) == vstd::math::min(
            vstd::math::abs(pos) as int,
            vstd::math::abs(pos - TRACK) as int,
        ),
{
}

/// Whether a hit at `pos` earns the timing bonus: the ball is within half a
/// hit-zone half-width of the nearer paddle's centre.
pub open spec fn just_timing(pos: int) -> bool {
    judgement(pos) < JUST_MARGIN
}

/// The speed a strike-back leaves behind: the direction always flips, and a
/// just-timed hit also grows the magnitude by a tenth, rounded down.
pub open spec fn strike_speed(pos: int, speed: int) -> int {
    let mag = if speed >= 0 {
        speed
    } else {
        -speed
    };
    let boosted = if just_timing(pos) {
        mag * 11 / 10
    } else {
        mag
    };
    if speed >= 0 {
        -boosted
    } else {
        boosted
    }
}

/// The ball's position after `ticks` ticks in which no swing is ever
/// pending, starting from `ball` at speed `speed`: each such tick moves the
/// ball by exactly `speed` and leaves the speed alone, as `update`'s
/// contract states of one tick.
pub open spec fn coasting_ball(ball: int, speed: int, ticks: nat) -> int
    decreases ticks,
{
    if ticks == 0 {
        ball
    } else {
        coasting_ball(ball + speed, speed, (ticks - 1) as nat)
    }
}

/// Law: ticks without a swing are pure drift. However many pass, the ball
/// stands at its start plus the tick count times the speed, and the speed
/// itself never changes.
pub proof fn lemma_coasting_is_linear(ball: int, speed: int, ticks: nat)
    ensures
        coasting_ball(ball, speed, ticks) == ball + ticks * speed,
    decreases ticks,
{
    if ticks == 0 {
        assert(ticks * speed == 0) by (nonlinear_arith)
            requires
                ticks == 0,
        ;
    } else {
        lemma_coasting_is_linear(ball + speed, speed, (ticks - 1) as nat);
        assert((ticks - 1) * speed + speed == ticks * speed) by (nonlinear_arith);
    }
}

/// The ball's state: its position on the track and its speed, both in
/// thousandths of the track length.
pub struct Game {
    pub ball: i64,
    pub speed: i64,
}

impl Game {
    /// A new round: the ball rests at the left paddle's centre and moves
    /// right at the starting speed.
    pub fn new() -> (g: Game)
        ensures
            g.ball == 0,
            g.speed == START_SPEED,
    {
        Game { ball: 0, speed: START_SPEED }
    }

    /// One tick: advance the ball by its speed, consume the swing flag,
    /// bounce if the swing lands in a hit zone, and report whether the
    /// round continues.
    ///
    /// The swing flag always reads false afterwards, whether or not it
    /// produced a hit. The speed flips exactly once when a hit registers
    /// and never otherwise. The round continues exactly while the advanced
    /// position stays within one hit-zone half-width of the track.
    pub fn update(&mut self, swing: &mut SwingSignal) -> (continues: bool)
        requires
            i64::MIN <= old(self).ball + old(self).speed <= i64::MAX,
            -i64::MAX <= old(self).speed,
        ensures
            final(self).ball == old(self).ball + old(self).speed,
            final(self).speed == speed_after_tick(
                old(self).speed as int,
                old(self).ball + old(self).speed,
                old(swing).is_set(),
            ),
            !final(swing).is_set(),
            continues == in_bounds(final(self).ball as int),
    {
        self.ball = self.ball + self.speed;
        let swung = swing.take();
        let is_hit_left = swung && -HALF_PADDLE <= self.ball && self.ball < HALF_PADDLE;
        let is_hit_right = swung && TRACK - HALF_PADDLE <= self.ball && self.ball
            < TRACK + HALF_PADDLE;
        if is_hit_left || is_hit_right {
            self.speed = -self.speed;
        }
        let out_left = self.ball < -HALF_PADDLE;
        let out_right = TRACK + HALF_PADDLE < self.ball;
        !out_left && !out_right
    }

    /// The timing-bonus refinement of a hit: always reverse the ball's
    /// direction, and when the hit was just-timed, also grow its speed by a
    /// tenth. The ball itself does not move.
    pub fn strike_back(&mut self)
        requires
            -i64::MAX <= old(self).ball,
            -(i64::MAX / 11) <= old(self).speed <= i64::MAX / 11,
        ensures
            final(self).ball == old(self).ball,
            final(self).speed == strike_speed(old(self).ball as int, old(self).speed as int),
    {
        let is_left = self.ball < TRACK / 2;
        let judgement: i64 = if is_left {
            if self.ball >= 0 {
                self.ball
            } else {
                -self.ball
            }
        } else {
            if self.ball >= TRACK {
                self.ball - TRACK
            } else {
                TRACK - self.ball
            }
        };
        let is_just_timing = judgement < JUST_MARGIN;
        let mag: i64 = if self.speed >= 0 {
            self.speed
        } else {
            -self.speed
        };
        let boosted: i64 = if is_just_timing {
            mag * 11 / 10
        } else {
            mag
        };
        self.speed = if self.speed >= 0 {
            -boosted
        } else {
            boosted
        };
    }
}

} // verus!

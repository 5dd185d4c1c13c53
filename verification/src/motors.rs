//! Motor actuation: one H-bridge channel per wheel and the differential
//! drive controller that pairs the two channels.

use vstd::prelude::*;

verus! {

/// Electrical state of one H-bridge motor channel.
#[derive(Clone, Copy, Debug, PartialEq, Eq, Structural)]
pub enum MotorDriverState {
    Stopped,
    Forward,
    Reverse,
}

/// One two-wire H-bridge pair driving one wheel.
///
/// The four booleans are the levels of the four output lines: a
/// forward-enable and a reverse-enable line for each bridge half. The
/// caller mirrors these levels onto the physical pins after every
/// operation. `write_count` counts the full four-line writes issued, so
/// that a no-op transition is observable as an unchanged count.
#[derive(Clone, Copy, Debug, PartialEq, Eq, Structural)]
pub struct MotorDriver {
    pub forward_a: bool,
    pub forward_b: bool,
    pub reverse_a: bool,
    pub reverse_b: bool,
    pub state: MotorDriverState,
    pub write_count: u64,
}

/// The write counter after one more four-line write (wrapping, so that
/// every operation is total; the counter is diagnostic only).
pub open spec fn next_write_count(count: u64) -> u64 {
    if count == u64::MAX {
        0
    } else {
        (count + 1) as u64
    }
}

/// A freshly created channel: all four lines deasserted, state Stopped,
/// one write issued (creation writes the lines once to reach that state).
pub open spec fn spec_driver_new() -> MotorDriver {
    MotorDriver {
        forward_a: false,
        forward_b: false,
        reverse_a: false,
        reverse_b: false,
        state: MotorDriverState::Stopped,
        write_count: 1,
    }
}

/// The channel after a full forward write.
pub open spec fn spec_driver_forward(m: MotorDriver) -> MotorDriver {
    MotorDriver {
        forward_a: true,
        forward_b: true,
        reverse_a: false,
        reverse_b: false,
        state: MotorDriverState::Forward,
        write_count: next_write_count(m.write_count),
    }
}

/// The channel after a full reverse write.
pub open spec fn spec_driver_backward(m: MotorDriver) -> MotorDriver {
    MotorDriver {
        forward_a: false,
        forward_b: false,
        reverse_a: true,
        reverse_b: true,
        state: MotorDriverState::Reverse,
        write_count: next_write_count(m.write_count),
    }
}

/// The channel after a full stop write (all lines deasserted).
pub open spec fn spec_driver_stop(m: MotorDriver) -> MotorDriver {
    MotorDriver {
        forward_a: false,
        forward_b: false,
        reverse_a: false,
        reverse_b: false,
        state: MotorDriverState::Stopped,
        write_count: next_write_count(m.write_count),
    }
}

impl MotorDriver {
    /// Well-formed: the asserted lines agree with the recorded state.
    pub open spec fn wf(self) -> bool {
        match self.state {
            MotorDriverState::Stopped => !self.forward_a && !self.forward_b && !self.reverse_a
                && !self.reverse_b,
            MotorDriverState::Forward => self.forward_a && self.forward_b && !self.reverse_a
                && !self.reverse_b,
            MotorDriverState::Reverse => !self.forward_a && !self.forward_b && self.reverse_a
                && self.reverse_b,
        }
    }

    /// Electrical safety: forward-enable and reverse-enable are never
    /// asserted at the same time (both at once would short the bridge).
    pub open spec fn electrically_safe(self) -> bool {
        !((self.forward_a || self.forward_b) && (self.reverse_a || self.reverse_b))
    }

    /// Creates a channel with all lines deasserted, in the Stopped state.
    pub fn new() -> (m: MotorDriver)
        ensures
            m == spec_driver_new(),
    {
        let mut m = MotorDriver {
            forward_a: false,
            forward_b: false,
            reverse_a: false,
            reverse_b: false,
            state: MotorDriverState::Stopped,
            write_count: 0,
        };
        m.stop();
        m
    }

    /// Full forward write: assert both forward-enable lines, deassert
    /// both reverse-enable lines.
    pub fn forward(&mut self)
        ensures
            *final(self) == spec_driver_forward(*old(self)),
    {
        self.forward_a = true;
        self.reverse_a = false;
        self.forward_b = true;
        self.reverse_b = false;
        self.state = MotorDriverState::Forward;
        self.write_count = self.write_count.wrapping_add(1);
    }

    /// Full reverse write: assert both reverse-enable lines, deassert
    /// both forward-enable lines.
    pub fn backward(&mut self)
        ensures
            *final(self) == spec_driver_backward(*old(self)),
    {
        self.forward_a = false;
        self.reverse_a = true;
        self.forward_b = false;
        self.reverse_b = true;
        self.state = MotorDriverState::Reverse;
        self.write_count = self.write_count.wrapping_add(1);
    }

    /// Full stop write: deassert all four lines.
    pub fn stop(&mut self)
        ensures
            *final(self) == spec_driver_stop(*old(self)),
    {
        self.forward_a = false;
        self.reverse_a = false;
        self.forward_b = false;
        self.reverse_b = false;
        self.state = MotorDriverState::Stopped;
        self.write_count = self.write_count.wrapping_add(1);
    }
}

/// Whole-rover motion state under differential steering.
#[derive(Clone, Copy, Debug, PartialEq, Eq, Structural)]
pub enum MotorsState {
    Stopped,
    Forward,
    Reverse,
    Left,
    Right,
}

/// The drive controller: exclusive owner of the two motor channels.
#[derive(Clone, Copy, Debug, PartialEq, Eq, Structural)]
pub struct Motors {
    pub left_motor: MotorDriver,
    pub right_motor: MotorDriver,
    pub state: MotorsState,
}

/// A freshly paired controller; no channel write is issued because the
/// controller already reports Stopped at creation.
pub open spec fn spec_motors_new(left_motor: MotorDriver, right_motor: MotorDriver) -> Motors {
    Motors { left_motor, right_motor, state: MotorsState::Stopped }
}

/// Drive forward: both channels forward; a no-op when already Forward.
pub open spec fn spec_forward(m: Motors) -> Motors {
    if m.state == MotorsState::Forward {
        m
    } else {
        Motors {
            left_motor: spec_driver_forward(m.left_motor),
            right_motor: spec_driver_forward(m.right_motor),
            state: MotorsState::Forward,
        }
    }
}

/// Drive backward: both channels reverse; a no-op when already Reverse.
pub open spec fn spec_backward(m: Motors) -> Motors {
    if m.state == MotorsState::Reverse {
        m
    } else {
        Motors {
            left_motor: spec_driver_backward(m.left_motor),
            right_motor: spec_driver_backward(m.right_motor),
            state: MotorsState::Reverse,
        }
    }
}

/// Stop: both channels stopped; a no-op when already Stopped.
pub open spec fn spec_stop(m: Motors) -> Motors {
    if m.state == MotorsState::Stopped {
        m
    } else {
        Motors {
            left_motor: spec_driver_stop(m.left_motor),
            right_motor: spec_driver_stop(m.right_motor),
            state: MotorsState::Stopped,
        }
    }
}

/// Pivot left: left channel reverse, right channel forward; a no-op when
/// already Left.
pub open spec fn spec_left(m: Motors) -> Motors {
    if m.state == MotorsState::Left {
        m
    } else {
        Motors {
            left_motor: spec_driver_backward(m.left_motor),
            right_motor: spec_driver_forward(m.right_motor),
            state: MotorsState::Left,
        }
    }
}

/// Pivot right: left channel forward, right channel reverse; a no-op when
/// already Right.
pub open spec fn spec_right(m: Motors) -> Motors {
    if m.state == MotorsState::Right {
        m
    } else {
        Motors {
            left_motor: spec_driver_forward(m.left_motor),
            right_motor: spec_driver_backward(m.right_motor),
            state: MotorsState::Right,
        }
    }
}

impl Motors {
    /// Well-formed: both channels agree with their recorded states, and
    /// the rover state agrees with the pair of channel states.
    pub open spec fn wf(self) -> bool {
        &&& self.left_motor.wf()
        &&& self.right_motor.wf()
        &&& self.state_agrees()
    }

    /// The rover state implies exactly this pair of channel states.
    pub open spec fn state_agrees(self) -> bool {
        match self.state {
            MotorsState::Stopped => self.left_motor.state == MotorDriverState::Stopped
                && self.right_motor.state == MotorDriverState::Stopped,
            MotorsState::Forward => self.left_motor.state == MotorDriverState::Forward
                && self.right_motor.state == MotorDriverState::Forward,
            MotorsState::Reverse => self.left_motor.state == MotorDriverState::Reverse
                && self.right_motor.state == MotorDriverState::Reverse,
            MotorsState::Left => self.left_motor.state == MotorDriverState::Reverse
                && self.right_motor.state == MotorDriverState::Forward,
            MotorsState::Right => self.left_motor.state == MotorDriverState::Forward
                && self.right_motor.state == MotorDriverState::Reverse,
        }
    }

    /// Pairs two channels into a controller reporting Stopped.
    pub fn new(left_motor: MotorDriver, right_motor: MotorDriver) -> (m: Motors)
        ensures
            m == spec_motors_new(left_motor, right_motor),
    {
        let mut motors = Motors { left_motor, right_motor, state: MotorsState::Stopped };
        motors.stop();
        motors
    }

    /// Drive forward; a no-op when already driving forward.
    pub fn forward(&mut self)
        ensures
            *final(self) == spec_forward(*old(self)),
    {
        if self.state == MotorsState::Forward {
            return;
        }
        self.state = MotorsState::Forward;
        self.left_motor.forward();
        self.right_motor.forward();
    }

    /// Drive backward; a no-op when already driving backward.
    pub fn backward(&mut self)
        ensures
            *final(self) == spec_backward(*old(self)),
    {
        if self.state == MotorsState::Reverse {
            return;
        }
        self.state = MotorsState::Reverse;
        self.left_motor.backward();
        self.right_motor.backward();
    }

    /// Stop; a no-op when already stopped.
    pub fn stop(&mut self)
        ensures
            *final(self) == spec_stop(*old(self)),
    {
        if self.state == MotorsState::Stopped {
            return;
        }
        self.state = MotorsState::Stopped;
        self.left_motor.stop();
        self.right_motor.stop();
    }

    /// Pivot left; a no-op when already pivoting left.
    pub fn left(&mut self)
        ensures
            *final(self) == spec_left(*old(self)),
    {
        if self.state == MotorsState::Left {
            return;
        }
        self.state = MotorsState::Left;
        self.left_motor.backward();
        self.right_motor.forward();
    }

    /// Pivot right; a no-op when already pivoting right.
    pub fn right(&mut self)
        ensures
            *final(self) == spec_right(*old(self)),
    {
        if self.state == MotorsState::Right {
            return;
        }
        self.state = MotorsState::Right;
        self.left_motor.forward();
        self.right_motor.backward();
    }
}

/// Electrical safety: a well-formed channel never asserts forward-enable
/// and reverse-enable together.
pub proof fn lemma_driver_wf_safe(m: MotorDriver)
    requires
        m.wf(),
    ensures
        m.electrically_safe(),
{
}

/// Every channel operation leaves the channel well formed, from any prior
/// channel value; with `lemma_driver_wf_safe`, every reachable channel
/// state is electrically safe.
pub proof fn lemma_driver_ops_wf(m: MotorDriver)
    ensures
        spec_driver_new().wf(),
        spec_driver_forward(m).wf(),
        spec_driver_backward(m).wf(),
        spec_driver_stop(m).wf(),
{
}

/// Pairing two well-formed stopped channels yields a well-formed
/// controller, and every drive operation preserves well-formedness, so
/// every reachable controller state is well formed.
pub proof fn lemma_motors_ops_preserve_wf(m: Motors)
    requires
        m.wf(),
    ensures
        spec_motors_new(spec_driver_new(), spec_driver_new()).wf(),
        spec_forward(m).wf(),
        spec_backward(m).wf(),
        spec_stop(m).wf(),
        spec_left(m).wf(),
        spec_right(m).wf(),
{
}

/// Idempotence: issuing the same drive command twice changes nothing on
/// the second call — in particular both channels' write counts are
/// unchanged, so no channel write is issued.
pub proof fn lemma_ops_idempotent(m: Motors)
    ensures
        spec_forward(spec_forward(m)) == spec_forward(m),
        spec_backward(spec_backward(m)) == spec_backward(m),
        spec_stop(spec_stop(m)) == spec_stop(m),
        spec_left(spec_left(m)) == spec_left(m),
        spec_right(spec_right(m)) == spec_right(m),
{
}

/// State mapping: on a well-formed controller, a pivot left leaves the
/// left channel in Reverse and the right channel in Forward, a pivot
/// right leaves the mirrored pair, and forward/backward leave both
/// channels equal.
pub proof fn lemma_state_mapping(m: Motors)
    requires
        m.wf(),
    ensures
        spec_left(m).left_motor.state == MotorDriverState::Reverse,
        spec_left(m).right_motor.state == MotorDriverState::Forward,
        spec_right(m).left_motor.state == MotorDriverState::Forward,
        spec_right(m).right_motor.state == MotorDriverState::Reverse,
        spec_forward(m).left_motor.state == MotorDriverState::Forward,
        spec_forward(m).right_motor.state == MotorDriverState::Forward,
        spec_backward(m).left_motor.state == MotorDriverState::Reverse,
        spec_backward(m).right_motor.state == MotorDriverState::Reverse,
        spec_stop(m).left_motor.state == MotorDriverState::Stopped,
        spec_stop(m).right_motor.state == MotorDriverState::Stopped,
{
}

} // verus!

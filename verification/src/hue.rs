//! The angle by which the hue of the image is turned.

use vstd::prelude::*;

verus! {

/// Degrees in a full turn.
pub const FULL_TURN: i32 = 360;

/// Seconds between two turns of the hue.
pub const TURN_PERIOD_SECS: u64 = 5;

/// `a + b` as a 32-bit signed integer holds it: wrapped round where the sum
/// leaves the range.
pub open spec fn wrapping_sum(a: i32, b: i32) -> int {
    if a + b > i32::MAX {
        a + b - 0x1_0000_0000
    } else if a + b < i32::MIN {
        a + b + 0x1_0000_0000
    } else {
        a + b
    }
}

/// The remainder of `n` by 360 with the sign of `n`.
pub open spec fn signed_rem(n: int) -> int {
    if n >= 0 {
        n % 360
    } else {
        -((-n) % 360)
    }
}

/// The hue after one more turn by `speed` degrees.
pub open spec fn next_hue(hue: i32, speed: i32) -> int {
    signed_rem(wrapping_sum(hue, speed))
}

/// The hue after `turns` turns by `speed` degrees, from 0.
pub open spec fn hue_after(speed: i32, turns: nat) -> int
    decreases turns,
{
    if turns == 0 {
        0
    } else {
        next_hue(hue_after(speed, (turns - 1) as nat) as i32, speed)
    }
}

/// Turns the hue by `speed` degrees: the sum wraps as 32-bit integers do, and
/// the result is its remainder by 360, negative where the sum is.
pub fn advance(hue: i32, speed: i32) -> (turned: i32)
    ensures
        turned == next_hue(hue, speed),
        -360 < turned < 360,
{
    let sum: i32 = hue.wrapping_add(speed);
    sum % FULL_TURN
}

/// While no sum leaves the 32-bit range, the hue after any number of turns is
/// the remainder by 360 of all the turns together: whenever they add up to
/// whole turns, the hue is back at 0, where it began.
pub proof fn lemma_whole_turns(speed: i32, turns: nat)
    requires
        i32::MIN + 359 <= speed <= i32::MAX - 359,
    ensures
        hue_after(speed, turns) == signed_rem(turns * speed),
        -360 < hue_after(speed, turns) < 360,
        (turns * speed) % 360 == 0 ==> hue_after(speed, turns) == 0,
    decreases turns,
{
    if turns > 0 {
        let before = (turns - 1) as nat;
        lemma_whole_turns(speed, before);
        let hue = hue_after(speed, before);
        assert(turns * speed == before * speed + speed) by (nonlinear_arith)
            requires
                turns == before + 1,
        ;
        if speed >= 0 {
            assert(before * speed >= 0) by (nonlinear_arith)
                requires
                    speed >= 0,
            ;
            vstd::arithmetic::div_mod::lemma_add_mod_noop(before * speed, speed as int, 360);
            vstd::arithmetic::div_mod::lemma_add_mod_noop(hue, speed as int, 360);
            vstd::arithmetic::div_mod::lemma_mod_twice(before * speed, 360);
        } else {
            assert(before * speed <= 0) by (nonlinear_arith)
                requires
                    speed < 0,
            ;
            vstd::arithmetic::div_mod::lemma_add_mod_noop(-(before * speed), -speed, 360);
            vstd::arithmetic::div_mod::lemma_add_mod_noop(-hue, -speed, 360);
            vstd::arithmetic::div_mod::lemma_mod_twice(-(before * speed), 360);
        }
    }
    if (turns * speed) % 360 == 0 && turns * speed < 0 {
        vstd::arithmetic::div_mod::lemma_fundamental_div_mod(turns * speed, 360);
        vstd::arithmetic::div_mod::lemma_mod_multiples_basic(-((turns * speed) / 360), 360);
    }
}

} // verus!

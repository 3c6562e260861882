//! The per-frame input of one player: eight buttons packed into a byte.

use vstd::prelude::*;

verus! {

/// Move up.
pub const INPUT_UP: u8 = 0x01;
/// Move down.
pub const INPUT_DOWN: u8 = 0x02;
/// Move left.
pub const INPUT_LEFT: u8 = 0x04;
/// Move right.
pub const INPUT_RIGHT: u8 = 0x08;
/// Fire upwards.
pub const INPUT_UP2: u8 = 0x10;
/// Fire downwards.
pub const INPUT_DOWN2: u8 = 0x20;
/// Fire to the left.
pub const INPUT_LEFT2: u8 = 0x40;
/// Fire to the right.
pub const INPUT_RIGHT2: u8 = 0x80;

/// What one player holds down during one frame. This is the only game data
/// that travels between peers.
#[derive(Clone, Copy, Debug, PartialEq, Eq, Structural)]
pub struct BoxInput {
    pub val: u8,
}

/// The keys that matter to the game, as sampled once per tick.
#[derive(Clone, Copy, Debug, PartialEq, Eq, Structural)]
pub struct Keys {
    pub w: bool,
    pub a: bool,
    pub s: bool,
    pub d: bool,
    pub up: bool,
    pub left: bool,
    pub down: bool,
    pub right: bool,
}

/// Whether the button `mask` is held in `val`.
pub open spec fn held(val: u8, mask: u8) -> bool {
    val & mask != 0
}

/// The weight of one button in the packed byte.
pub open spec fn weight(pressed: bool, mask: u8) -> int {
    if pressed {
        mask as int
    } else {
        0
    }
}

/// The byte that stands for `keys`: each pressed key contributes its own bit.
pub open spec fn packed(keys: Keys) -> int {
    weight(keys.w, INPUT_UP) + weight(keys.s, INPUT_DOWN) + weight(keys.a, INPUT_LEFT) + weight(
        keys.d,
        INPUT_RIGHT,
    ) + weight(keys.up, INPUT_UP2) + weight(keys.down, INPUT_DOWN2) + weight(
        keys.left,
        INPUT_LEFT2,
    ) + weight(keys.right, INPUT_RIGHT2)
}

/// The single bit `mask` when `pressed`, nothing otherwise.
fn button(pressed: bool, mask: u8) -> (out: u8)
    ensures
        out == weight(pressed, mask),
{
    if pressed {
        mask
    } else {
        0
    }
}

/// Buttons that sit on different bits do not disturb each other: their union
/// is their sum, and each bit of the union tells whether its button is there.
proof fn lemma_union_of_buttons(
    up: u8,
    down: u8,
    left: u8,
    right: u8,
    up2: u8,
    down2: u8,
    left2: u8,
    right2: u8,
)
    by (bit_vector)
    requires
        up == 0 || up == 0x01,
        down == 0 || down == 0x02,
        left == 0 || left == 0x04,
        right == 0 || right == 0x08,
        up2 == 0 || up2 == 0x10,
        down2 == 0 || down2 == 0x20,
        left2 == 0 || left2 == 0x40,
        right2 == 0 || right2 == 0x80,
    ensures
        (up | down | left | right | up2 | down2 | left2 | right2) == up + down + left + right
            + up2 + down2 + left2 + right2,
        ((up | down | left | right | up2 | down2 | left2 | right2) & 0x01 != 0) == (up != 0),
        ((up | down | left | right | up2 | down2 | left2 | right2) & 0x02 != 0) == (down != 0),
        ((up | down | left | right | up2 | down2 | left2 | right2) & 0x04 != 0) == (left != 0),
        ((up | down | left | right | up2 | down2 | left2 | right2) & 0x08 != 0) == (right != 0),
        ((up | down | left | right | up2 | down2 | left2 | right2) & 0x10 != 0) == (up2 != 0),
        ((up | down | left | right | up2 | down2 | left2 | right2) & 0x20 != 0) == (down2 != 0),
        ((up | down | left | right | up2 | down2 | left2 | right2) & 0x40 != 0) == (left2 != 0),
        ((up | down | left | right | up2 | down2 | left2 | right2) & 0x80 != 0) == (right2 != 0),
{
}

/// Samples the local input of player `_handle`: W, A, S, D steer, the arrow
/// keys fire. The result depends on the keys alone.
pub fn input(_handle: usize, keys: &Keys) -> (out: BoxInput)
    ensures
        out.val == packed(*keys),
        held(out.val, INPUT_UP) == keys.w,
        held(out.val, INPUT_DOWN) == keys.s,
        held(out.val, INPUT_LEFT) == keys.a,
        held(out.val, INPUT_RIGHT) == keys.d,
        held(out.val, INPUT_UP2) == keys.up,
        held(out.val, INPUT_DOWN2) == keys.down,
        held(out.val, INPUT_LEFT2) == keys.left,
        held(out.val, INPUT_RIGHT2) == keys.right,
{
    let up = button(keys.w, INPUT_UP);
    let down = button(keys.s, INPUT_DOWN);
    let left = button(keys.a, INPUT_LEFT);
    let right = button(keys.d, INPUT_RIGHT);
    let up2 = button(keys.up, INPUT_UP2);
    let down2 = button(keys.down, INPUT_DOWN2);
    let left2 = button(keys.left, INPUT_LEFT2);
    let right2 = button(keys.right, INPUT_RIGHT2);
    proof {
        lemma_union_of_buttons(up, down, left, right, up2, down2, left2, right2);
    }
    BoxInput { val: up | down | left | right | up2 | down2 | left2 | right2 }
}

} // verus!

//! Upstream Turbo Vision reserved `CM_*` command ids.
//!
//! Widget `commandId` values are passed to `OnCommand` unchanged, so ids that
//! collide with an upstream built-in command are worth reporting.
use vstd::prelude::*;

verus! {

/// Command ids that the upstream Turbo Vision command table reserves.
///
/// `0` is excluded: it marks a menu separator and is never dispatched.
pub const TURBO_VISION_RESERVED_COMMANDS: [u16; 60] = [
    1, 4, 5, 6, 7, 8, 10, 11, 12, 13, 14, 20, 21, 22, 23, 24, 25, 26, 31, 50, 51, 52, 55, 57, 60,
    61, 62, 63, 66, 67, 69, 70, 100, 101, 102, 103, 108, 109, 111, 115, 116, 117, 118, 120, 121,
    130, 131, 132, 133, 140, 141, 150, 151, 152, 300, 301, 302, 303, 304, 305,
];

/// The reserved ids as a mathematical sequence.
pub open spec fn reserved_commands() -> Seq<u16> {
    seq![
        1u16, 4, 5, 6, 7, 8, 10, 11, 12, 13, 14, 20, 21, 22, 23, 24, 25, 26, 31, 50, 51, 52, 55, 57, 60,
        61, 62, 63, 66, 67, 69, 70, 100, 101, 102, 103, 108, 109, 111, 115, 116, 117, 118, 120, 121,
        130, 131, 132, 133, 140, 141, 150, 151, 152, 300, 301, 302, 303, 304, 305,
    ]
}

/// Returns `true` when `command_id` collides with an upstream built-in command.
pub fn turbo_vision_reserved_command(command_id: u16) -> (reserved: bool)
    ensures
        reserved == reserved_commands().contains(command_id),
{
    let table: [u16; 60] = TURBO_VISION_RESERVED_COMMANDS;
    assert(table@ == reserved_commands());
    let mut i: usize = 0;
    while i < 60
        invariant
            0 <= i <= 60,
            table@ == reserved_commands(),
            forall|j: int| 0 <= j < i ==> table@[j] != command_id,
        decreases 60 - i,
    {
        if table[i] == command_id {
            assert(reserved_commands()[i as int] == command_id);
            return true;
        }
        i = i + 1;
    }
    false
}

} // verus!

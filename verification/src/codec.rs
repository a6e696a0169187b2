//! Value codec: lossless conversion between domain values and 16-bit
//! register words — 32-bit split/join, the peak-current derivation, the
//! inductance clamp, bit-packed configuration words, and single-bit updates
//! of a control register.

use vstd::prelude::*;

use crate::types::{Direction, DigitalInputFunction, HomingMethod, PathMotionType};
use crate::registers::SI_NC_INCR;

verus! {

/// The high word of a 32-bit quantity: bits 16 through 31.
pub open spec fn high_word(value: u32) -> u16 {
    ((value >> 16) & 0xFFFF) as u16
}

/// The low word of a 32-bit quantity: bits 0 through 15.
pub open spec fn low_word(value: u32) -> u16 {
    (value & 0xFFFF) as u16
}

/// Rejoin a high and a low word into the 32-bit quantity they carry.
pub open spec fn join_words(high: u16, low: u16) -> u32 {
    (high as u32) << 16 | (low as u32)
}

/// Splitting a 32-bit value and rejoining the two words reconstructs it
/// exactly.
pub proof fn lemma_split_join(value: u32)
    ensures
        join_words(high_word(value), low_word(value)) == value,
{
    assert(((((value >> 16) & 0xFFFF) as u16) as u32) << 16 | (((value & 0xFFFF) as u16) as u32)
        == value) by (bit_vector);
}

/// Split a 32-bit quantity into its high and low register words.
///
/// The protocol writes the high word before the low word wherever a split
/// value goes on the wire; the sequence builders preserve that order.
pub fn split_words(value: u32) -> (r: (u16, u16))
    ensures
        r.0 == high_word(value),
        r.1 == low_word(value),
{
    (((value >> 16) & 0xFFFF) as u16, (value & 0xFFFF) as u16)
}

/// Rejoin two register words into the 32-bit quantity they carry.
pub fn join_split_words(high: u16, low: u16) -> (r: u32)
    ensures
        r == join_words(high, low),
{
    (high as u32) << 16 | (low as u32)
}

/// The peak-current register word for a phase current given in milliamps:
/// the fixed RMS-to-peak factor 1.4 and the fixed-point scale 10 make the
/// word `phase_current_amps * 14`, truncated (never rounded up).
pub fn peak_current_word(phase_current_ma: u16) -> (word: u16)
    ensures
        word == phase_current_ma * 14 / 1000,
{
    ((phase_current_ma as u32) * 14 / 1000) as u16
}

/// The inductance register word: values above 10000 are silently clamped
/// to 10000, smaller values pass through unchanged.
pub fn inductance_word(inductance: u16) -> (word: u16)
    ensures
        word == (if inductance > 10000 { 10000u16 } else { inductance }),
{
    if inductance > 10000 {
        10000
    } else {
        inductance
    }
}

/// The configuration word of a digital input: the function code, plus the
/// normally-closed increment when the contact is normally closed.
pub open spec fn spec_input_config_word(function: DigitalInputFunction, normally_closed: bool) -> u16 {
    (function.wire_word() + (if normally_closed { SI_NC_INCR } else { 0u16 })) as u16
}

pub fn input_config_word(function: DigitalInputFunction, normally_closed: bool) -> (word: u16)
    ensures
        word == spec_input_config_word(function, normally_closed),
{
    function.encode() + (if normally_closed { SI_NC_INCR } else { 0 })
}

/// The homing-mode register word: direction bit, move-after-homing flag
/// and homing method, packed by addition of disjoint codes.
pub open spec fn spec_home_mode_word(
    direction: Direction,
    move_to_pos: bool,
    method: HomingMethod,
) -> u16 {
    (direction.wire_word() + (if move_to_pos { 0x0002u16 } else { 0u16 }) + method.wire_word()) as u16
}

pub fn home_mode_word(direction: Direction, move_to_pos: bool, method: HomingMethod) -> (word: u16)
    ensures
        word == spec_home_mode_word(direction, move_to_pos, method),
{
    direction.encode() + (if move_to_pos { 0x0002 } else { 0x0000 }) + method.encode()
}

/// The path control register word: the motion-type code in the low bits,
/// the interrupt, overlap and relative flags at their fixed positions, and,
/// when a jump is requested, the jump-enable bit together with the target
/// path id in the jump nibble.
pub open spec fn spec_path_ctrl_word(
    motion_type: PathMotionType,
    interrupt: bool,
    overlap: bool,
    absolute: bool,
    jump: bool,
    jump_to: u8,
) -> u16 {
    (motion_type.wire_word() + (if interrupt { 0x0010u16 } else { 0u16 }) + (if overlap {
        0x0020u16
    } else {
        0u16
    }) + (if absolute { 0u16 } else { 0x0040u16 }) + (if jump {
        (0x4000 + (jump_to % 16) * 0x100) as u16
    } else {
        0u16
    })) as u16
}

pub fn path_ctrl_word(
    motion_type: PathMotionType,
    interrupt: bool,
    overlap: bool,
    absolute: bool,
    jump: bool,
    jump_to: u8,
) -> (word: u16)
    ensures
        word == spec_path_ctrl_word(motion_type, interrupt, overlap, absolute, jump, jump_to),
{
    let mut word: u16 = motion_type.encode();
    if interrupt {
        word = word + 0x0010;
    }
    if overlap {
        word = word + 0x0020;
    }
    if !absolute {
        word = word + 0x0040;
    }
    if jump {
        word = word + 0x4000 + ((jump_to % 16) as u16) * 0x100;
    }
    word
}

/// Whether bit `index` of `word` is set.
pub open spec fn word_bit(word: u16, index: u16) -> bool {
    (word >> index) & 1 == 1
}

proof fn lemma_bit_update(w: u16, i: u16, j: u16)
    by (bit_vector)
    requires
        i < 16,
        j < 16,
    ensures
        word_bit(w | (1u16 << i), i),
        !word_bit(w & !(1u16 << i), i),
        i != j ==> word_bit(w | (1u16 << i), j) == word_bit(w, j),
        i != j ==> word_bit(w & !(1u16 << i), j) == word_bit(w, j),
{
}

/// Setting or clearing bits inside `mask` leaves every selection outside
/// `mask` untouched: the masked views of `word | mask` and `word & !mask`
/// through any `sel` disjoint from `mask` equal the view of `word` itself.
pub proof fn lemma_mask_insensitive(word: u16, mask: u16, sel: u16)
    by (bit_vector)
    requires
        mask & sel == 0,
    ensures
        (word | mask) & sel == word & sel,
        (word & !mask) & sel == word & sel,
{
}

/// A register word with bit `index` forced to `value` and every other bit
/// unchanged — the read-modify-write update used on the PR global control
/// register.
pub fn with_bit(word: u16, index: u16, value: bool) -> (r: u16)
    requires
        index < 16,
    ensures
        word_bit(r, index) == value,
        forall|j: u16| j < 16 && j != index ==> word_bit(r, j) == word_bit(word, j),
{
    let r: u16 = if value {
        word | (1u16 << index)
    } else {
        word & !(1u16 << index)
    };
    proof {
        lemma_bit_update(word, index, index);
        assert forall|j: u16| j < 16 && j != index implies word_bit(r, j) == word_bit(word, j) by {
            lemma_bit_update(word, index, j);
        }
    }
    r
}

} // verus!

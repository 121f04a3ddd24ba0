//! Frame encoders: pure functions from a lighting-state snapshot to the
//! fixed-size byte frames the driver expects.
//!
//! The dynamic endpoint takes 16-byte frames; byte 9 is a commit flag that
//! is always 1 and bytes 3, 8 and 10..=15 are reserved and always 0. The
//! static endpoint takes 8-byte frames with two opcodes: 0 sets a zone's
//! color, 1 toggles zones. Numeric fields are clamped into their
//! documented ranges here, so the encoders never rely on the caller having
//! range-checked the state.

use vstd::prelude::*;

use crate::state::{
    spec_clamp_brightness, spec_clamp_speed, spec_direction_code, spec_effect_code, spec_flag,
    clamp_brightness, clamp_speed, direction_code, effect_code, flag, LightingState, Mode,
};

verus! {

/// Length of every frame on the dynamic endpoint.
pub const DYNAMIC_FRAME_LEN: usize = 16;

/// Length of every frame on the static endpoint.
pub const STATIC_FRAME_LEN: usize = 8;

/// The full-update frame for the dynamic endpoint: live effect, speed,
/// direction and color values, plus the brightness.
pub open spec fn spec_dynamic_frame(s: LightingState) -> Seq<u8> {
    seq![
        spec_effect_code(s.effect),
        spec_clamp_speed(s.speed),
        spec_clamp_brightness(s.brightness),
        0u8,
        spec_direction_code(s.direction),
        s.color.r,
        s.color.g,
        s.color.b,
        0u8,
        1u8,
        0u8,
        0u8,
        0u8,
        0u8,
        0u8,
        0u8,
    ]
}

/// The brightness-only frame for the dynamic endpoint: every
/// effect-related byte is zero, only the brightness is carried.
pub open spec fn spec_companion_frame(s: LightingState) -> Seq<u8> {
    seq![
        0u8,
        0u8,
        spec_clamp_brightness(s.brightness),
        0u8,
        0u8,
        0u8,
        0u8,
        0u8,
        0u8,
        1u8,
        0u8,
        0u8,
        0u8,
        0u8,
        0u8,
        0u8,
    ]
}

/// The frame sent for a brightness change. The variant is selected by the
/// current mode, never by which field triggered the change: while static,
/// the effect bytes are forced to zero; while dynamic, they carry the
/// live values.
pub open spec fn spec_brightness_frame(s: LightingState) -> Seq<u8> {
    if s.mode is Static {
        spec_companion_frame(s)
    } else {
        spec_dynamic_frame(s)
    }
}

/// Bitmask identifying zone `z` (1-based) in a set-color frame: bit
/// `z - 1` set and nothing else.
pub open spec fn spec_zone_mask(z: int) -> u8 {
    if z == 1 {
        1
    } else if z == 2 {
        2
    } else {
        4
    }
}

/// A `u8` with exactly one bit set.
pub open spec fn one_hot(b: u8) -> bool {
    b != 0 && b & ((b - 1) as u8) == 0
}

/// The set-color frame for the static endpoint: opcode 0, the mask of the
/// addressed zone, that zone's color, and all three enable flags.
pub open spec fn spec_static_zone_frame(s: LightingState, z: int) -> Seq<u8> {
    seq![
        0u8,
        spec_zone_mask(z),
        s.spec_zone(z).color.r,
        s.spec_zone(z).color.g,
        s.spec_zone(z).color.b,
        spec_flag(s.zone1.enabled),
        spec_flag(s.zone2.enabled),
        spec_flag(s.zone3.enabled),
    ]
}

/// The toggle frame for the static endpoint: opcode 1, the zone number
/// itself (not a bitmask), the zone's current color echoed, and all three
/// enable flags.
pub open spec fn spec_toggle_frame(s: LightingState, z: int) -> Seq<u8> {
    seq![
        1u8,
        z as u8,
        s.spec_zone(z).color.r,
        s.spec_zone(z).color.g,
        s.spec_zone(z).color.b,
        spec_flag(s.zone1.enabled),
        spec_flag(s.zone2.enabled),
        spec_flag(s.zone3.enabled),
    ]
}

/// Encode the full dynamic-endpoint update for the current state. Sent
/// when entering dynamic mode or when any dynamic-effect parameter
/// changes.
pub fn encode_dynamic(state: &LightingState) -> (frame: Vec<u8>)
    ensures
        frame@ == spec_dynamic_frame(*state),
{
    let mut frame: Vec<u8> = Vec::new();
    frame.push(effect_code(state.effect));
    frame.push(clamp_speed(state.speed));
    frame.push(clamp_brightness(state.brightness));
    frame.push(0);
    frame.push(direction_code(state.direction));
    frame.push(state.color.r);
    frame.push(state.color.g);
    frame.push(state.color.b);
    frame.push(0);
    frame.push(1);
    frame.push(0);
    frame.push(0);
    frame.push(0);
    frame.push(0);
    frame.push(0);
    frame.push(0);
    proof {
        assert(frame@ =~= spec_dynamic_frame(*state));
    }
    frame
}

/// Encode the dynamic-endpoint frame for a brightness change: the
/// brightness-only variant while static, the full update while dynamic.
pub fn encode_brightness_update(state: &LightingState) -> (frame: Vec<u8>)
    ensures
        frame@ == spec_brightness_frame(*state),
{
    match state.mode {
        Mode::Static => encode_brightness_companion(state),
        Mode::Dynamic => encode_dynamic(state),
    }
}

/// Encode the auxiliary brightness-carrying frame for the dynamic
/// endpoint: all bytes zero except the brightness and the commit flag.
/// Some hardware revisions need it after every static-zone write.
pub fn encode_brightness_companion(state: &LightingState) -> (frame: Vec<u8>)
    ensures
        frame@ == spec_companion_frame(*state),
{
    let mut frame: Vec<u8> = Vec::new();
    frame.push(0);
    frame.push(0);
    frame.push(clamp_brightness(state.brightness));
    frame.push(0);
    frame.push(0);
    frame.push(0);
    frame.push(0);
    frame.push(0);
    frame.push(0);
    frame.push(1);
    frame.push(0);
    frame.push(0);
    frame.push(0);
    frame.push(0);
    frame.push(0);
    frame.push(0);
    proof {
        assert(frame@ =~= spec_companion_frame(*state));
    }
    frame
}

/// Encode the set-color frame for zone `z` (1-based) on the static
/// endpoint.
pub fn encode_static_zone(state: &LightingState, z: u8) -> (frame: Vec<u8>)
    requires
        1 <= z <= 3,
    ensures
        frame@ == spec_static_zone_frame(*state, z as int),
{
    let zone = state.zone(z);
    let mask: u8 = if z == 1 {
        1
    } else if z == 2 {
        2
    } else {
        4
    };
    let mut frame: Vec<u8> = Vec::new();
    frame.push(0);
    frame.push(mask);
    frame.push(zone.color.r);
    frame.push(zone.color.g);
    frame.push(zone.color.b);
    frame.push(flag(state.zone1.enabled));
    frame.push(flag(state.zone2.enabled));
    frame.push(flag(state.zone3.enabled));
    proof {
        assert(frame@ =~= spec_static_zone_frame(*state, z as int));
    }
    frame
}

/// Encode the toggle frame for zone `z` (1-based) on the static endpoint.
/// The zone's color is echoed unchanged; only the enable flags carry the
/// change.
pub fn encode_zone_toggle(state: &LightingState, z: u8) -> (frame: Vec<u8>)
    requires
        1 <= z <= 3,
    ensures
        frame@ == spec_toggle_frame(*state, z as int),
{
    let zone = state.zone(z);
    let mut frame: Vec<u8> = Vec::new();
    frame.push(1);
    frame.push(z);
    frame.push(zone.color.r);
    frame.push(zone.color.g);
    frame.push(zone.color.b);
    frame.push(flag(state.zone1.enabled));
    frame.push(flag(state.zone2.enabled));
    frame.push(flag(state.zone3.enabled));
    proof {
        assert(frame@ =~= spec_toggle_frame(*state, z as int));
    }
    frame
}

/// Every frame for the dynamic endpoint is exactly 16 bytes, carries the
/// commit flag at byte 9, and keeps the reserved bytes 3, 8 and 10..=15
/// at zero — for every state, valid or not.
pub proof fn lemma_dynamic_frames_well_formed(s: LightingState)
    ensures
        spec_dynamic_frame(s).len() == DYNAMIC_FRAME_LEN,
        spec_brightness_frame(s).len() == DYNAMIC_FRAME_LEN,
        spec_companion_frame(s).len() == DYNAMIC_FRAME_LEN,
        spec_dynamic_frame(s)[0] == spec_effect_code(s.effect) && spec_dynamic_frame(s)[0] != 0,
        spec_dynamic_frame(s)[9] == 1,
        spec_brightness_frame(s)[9] == 1,
        spec_companion_frame(s)[9] == 1,
        forall|i: int|
            (i == 3 || i == 8 || 10 <= i < 16) ==> {
                &&& #[trigger] spec_dynamic_frame(s)[i] == 0
                &&& spec_brightness_frame(s)[i] == 0
                &&& spec_companion_frame(s)[i] == 0
            },
{
}

/// While the mode is static, the brightness-change frame masks every
/// dynamic-effect byte to zero, whatever the stored effect, speed,
/// direction and color are.
pub proof fn lemma_static_brightness_masks_effect_bytes(s: LightingState)
    requires
        s.mode is Static,
    ensures
        spec_brightness_frame(s)[0] == 0,
        spec_brightness_frame(s)[1] == 0,
        spec_brightness_frame(s)[4] == 0,
        spec_brightness_frame(s)[5] == 0,
        spec_brightness_frame(s)[6] == 0,
        spec_brightness_frame(s)[7] == 0,
        spec_brightness_frame(s)[2] == spec_clamp_brightness(s.brightness),
{
}

/// The set-color frame addresses its zone by a one-hot bitmask: byte 1
/// equals `1 << (z - 1)` and has exactly one bit set.
pub proof fn lemma_zone_mask_one_hot(s: LightingState, z: int)
    requires
        1 <= z <= 3,
    ensures
        spec_static_zone_frame(s, z).len() == STATIC_FRAME_LEN,
        spec_static_zone_frame(s, z)[1] == (1u8 << ((z - 1) as u8)),
        one_hot(spec_static_zone_frame(s, z)[1]),
{
    if z == 1 {
        assert((1u8 << 0u8) == 1 && 1u8 & 0u8 == 0) by (bit_vector);
    } else if z == 2 {
        assert((1u8 << 1u8) == 2 && 2u8 & 1u8 == 0) by (bit_vector);
    } else {
        assert((1u8 << 2u8) == 4 && 4u8 & 3u8 == 0) by (bit_vector);
    }
}

/// The toggle frame addresses its zone by the zone number itself, not a
/// bitmask, and the two static-endpoint opcodes stay distinct: byte 0 is
/// 1 for a toggle and 0 for a set-color.
pub proof fn lemma_toggle_frame_identifies_zone(s: LightingState, z: int)
    requires
        1 <= z <= 3,
    ensures
        spec_toggle_frame(s, z).len() == STATIC_FRAME_LEN,
        spec_toggle_frame(s, z)[1] == z,
        spec_toggle_frame(s, z)[0] == 1,
        spec_static_zone_frame(s, z)[0] == 0,
{
}

/// Encoding is deterministic: equal states yield byte-identical frames,
/// of every frame kind.
pub proof fn lemma_encoding_deterministic(s1: LightingState, s2: LightingState, z: int)
    requires
        s1 == s2,
        1 <= z <= 3,
    ensures
        spec_dynamic_frame(s1) == spec_dynamic_frame(s2),
        spec_brightness_frame(s1) == spec_brightness_frame(s2),
        spec_companion_frame(s1) == spec_companion_frame(s2),
        spec_static_zone_frame(s1, z) == spec_static_zone_frame(s2, z),
        spec_toggle_frame(s1, z) == spec_toggle_frame(s2, z),
{
}

} // verus!

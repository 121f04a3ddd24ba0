//! Snapshot codec for persisting the lighting state between runs.
//!
//! A snapshot is a fixed 20-byte record. Parsing validates every field
//! against its documented range and reports an unreadable snapshot as
//! [`ProtocolError::ConfigCorrupt`]; the caller then substitutes the
//! default state instead of failing startup. For every valid state,
//! parsing its own snapshot gives the state back unchanged.

use vstd::prelude::*;

use crate::error::ProtocolError;
use crate::state::{
    spec_direction_code, spec_effect_code, spec_flag, direction_code, effect_code, flag,
    Direction, Effect, LightingState, Mode, Rgb, Zone,
};

verus! {

/// Length of a persisted snapshot record.
pub const SNAPSHOT_LEN: usize = 20;

/// Wire code for the mode inside a snapshot.
pub open spec fn spec_mode_code(m: Mode) -> u8 {
    match m {
        Mode::Static => 0,
        Mode::Dynamic => 1,
    }
}

#[verifier::when_used_as_spec(spec_mode_code)]
pub fn mode_code(m: Mode) -> (c: u8)
    ensures
        c == spec_mode_code(m),
{
    match m {
        Mode::Static => 0,
        Mode::Dynamic => 1,
    }
}

/// Mode for a snapshot code 0 or 1.
pub open spec fn spec_mode_from_code(c: u8) -> Mode {
    if c == 0 {
        Mode::Static
    } else {
        Mode::Dynamic
    }
}

#[verifier::when_used_as_spec(spec_mode_from_code)]
pub fn mode_from_code(c: u8) -> (m: Mode)
    ensures
        m == spec_mode_from_code(c),
{
    if c == 0 {
        Mode::Static
    } else {
        Mode::Dynamic
    }
}

/// Effect for a 1-based wire code; the inverse of the effect code on
/// codes 1..=7.
pub open spec fn spec_effect_from_code(c: u8) -> Effect {
    if c == 1 {
        Effect::Breathing
    } else if c == 2 {
        Effect::Neon
    } else if c == 3 {
        Effect::Wave
    } else if c == 4 {
        Effect::Shifting
    } else if c == 5 {
        Effect::Zoom
    } else if c == 6 {
        Effect::Meteor
    } else {
        Effect::Twinkling
    }
}

#[verifier::when_used_as_spec(spec_effect_from_code)]
pub fn effect_from_code(c: u8) -> (e: Effect)
    ensures
        e == spec_effect_from_code(c),
{
    if c == 1 {
        Effect::Breathing
    } else if c == 2 {
        Effect::Neon
    } else if c == 3 {
        Effect::Wave
    } else if c == 4 {
        Effect::Shifting
    } else if c == 5 {
        Effect::Zoom
    } else if c == 6 {
        Effect::Meteor
    } else {
        Effect::Twinkling
    }
}

/// Direction for a wire code; the inverse of the direction code on codes
/// 0..=2.
pub open spec fn spec_direction_from_code(c: u8) -> Direction {
    if c == 0 {
        Direction::Neutral
    } else if c == 1 {
        Direction::LeftToRight
    } else {
        Direction::RightToLeft
    }
}

#[verifier::when_used_as_spec(spec_direction_from_code)]
pub fn direction_from_code(c: u8) -> (d: Direction)
    ensures
        d == spec_direction_from_code(c),
{
    if c == 0 {
        Direction::Neutral
    } else if c == 1 {
        Direction::LeftToRight
    } else {
        Direction::RightToLeft
    }
}

/// The 20-byte snapshot record of a state: mode, brightness, effect,
/// speed, direction, the dynamic color, then color and enable flag of
/// each of the three zones in order.
pub open spec fn spec_snapshot(s: LightingState) -> Seq<u8> {
    seq![
        spec_mode_code(s.mode),
        s.brightness,
        spec_effect_code(s.effect),
        s.speed,
        spec_direction_code(s.direction),
        s.color.r,
        s.color.g,
        s.color.b,
        s.zone1.color.r,
        s.zone1.color.g,
        s.zone1.color.b,
        spec_flag(s.zone1.enabled),
        s.zone2.color.r,
        s.zone2.color.g,
        s.zone2.color.b,
        spec_flag(s.zone2.enabled),
        s.zone3.color.r,
        s.zone3.color.g,
        s.zone3.color.b,
        spec_flag(s.zone3.enabled),
    ]
}

/// A byte record is a readable snapshot: right length, and every coded
/// field inside its documented range.
pub open spec fn snapshot_wf(b: Seq<u8>) -> bool {
    &&& b.len() == 20
    &&& b[0] <= 1
    &&& b[1] <= 100
    &&& 1 <= b[2] <= 7
    &&& 1 <= b[3] <= 9
    &&& b[4] <= 2
    &&& b[11] <= 1
    &&& b[15] <= 1
    &&& b[19] <= 1
}

/// The state a readable snapshot records.
pub open spec fn spec_parse(b: Seq<u8>) -> LightingState
    recommends
        snapshot_wf(b),
{
    LightingState {
        mode: spec_mode_from_code(b[0]),
        brightness: b[1],
        effect: spec_effect_from_code(b[2]),
        speed: b[3],
        direction: spec_direction_from_code(b[4]),
        color: Rgb { r: b[5], g: b[6], b: b[7] },
        zone1: Zone { color: Rgb { r: b[8], g: b[9], b: b[10] }, enabled: b[11] == 1 },
        zone2: Zone { color: Rgb { r: b[12], g: b[13], b: b[14] }, enabled: b[15] == 1 },
        zone3: Zone { color: Rgb { r: b[16], g: b[17], b: b[18] }, enabled: b[19] == 1 },
    }
}

/// Encode the snapshot record to persist after a committed change.
pub fn snapshot_bytes(state: &LightingState) -> (bytes: Vec<u8>)
    ensures
        bytes@ == spec_snapshot(*state),
        bytes@.len() == 20,
{
    let mut bytes: Vec<u8> = Vec::new();
    bytes.push(mode_code(state.mode));
    bytes.push(state.brightness);
    bytes.push(effect_code(state.effect));
    bytes.push(state.speed);
    bytes.push(direction_code(state.direction));
    bytes.push(state.color.r);
    bytes.push(state.color.g);
    bytes.push(state.color.b);
    bytes.push(state.zone1.color.r);
    bytes.push(state.zone1.color.g);
    bytes.push(state.zone1.color.b);
    bytes.push(flag(state.zone1.enabled));
    bytes.push(state.zone2.color.r);
    bytes.push(state.zone2.color.g);
    bytes.push(state.zone2.color.b);
    bytes.push(flag(state.zone2.enabled));
    bytes.push(state.zone3.color.r);
    bytes.push(state.zone3.color.g);
    bytes.push(state.zone3.color.b);
    bytes.push(flag(state.zone3.enabled));
    proof {
        assert(bytes@ =~= spec_snapshot(*state));
    }
    bytes
}

/// Decode a persisted snapshot. Returns the recorded state exactly when
/// the record is readable, and `ConfigCorrupt` otherwise; a parsed state
/// always sits inside the documented numeric bounds.
pub fn parse_snapshot(bytes: &Vec<u8>) -> (r: Result<LightingState, ProtocolError>)
    ensures
        match r {
            Ok(s) => snapshot_wf(bytes@) && s == spec_parse(bytes@) && s.valid(),
            Err(e) => !snapshot_wf(bytes@) && e == ProtocolError::ConfigCorrupt,
        },
{
    if bytes.len() != SNAPSHOT_LEN {
        return Err(ProtocolError::ConfigCorrupt);
    }
    if bytes[0] > 1 || bytes[1] > 100 {
        return Err(ProtocolError::ConfigCorrupt);
    }
    if bytes[2] < 1 || bytes[2] > 7 || bytes[3] < 1 || bytes[3] > 9 || bytes[4] > 2 {
        return Err(ProtocolError::ConfigCorrupt);
    }
    if bytes[11] > 1 || bytes[15] > 1 || bytes[19] > 1 {
        return Err(ProtocolError::ConfigCorrupt);
    }
    Ok(
        LightingState {
            mode: mode_from_code(bytes[0]),
            brightness: bytes[1],
            effect: effect_from_code(bytes[2]),
            speed: bytes[3],
            direction: direction_from_code(bytes[4]),
            color: Rgb { r: bytes[5], g: bytes[6], b: bytes[7] },
            zone1: Zone {
                color: Rgb { r: bytes[8], g: bytes[9], b: bytes[10] },
                enabled: bytes[11] == 1,
            },
            zone2: Zone {
                color: Rgb { r: bytes[12], g: bytes[13], b: bytes[14] },
                enabled: bytes[15] == 1,
            },
            zone3: Zone {
                color: Rgb { r: bytes[16], g: bytes[17], b: bytes[18] },
                enabled: bytes[19] == 1,
            },
        },
    )
}

/// Round trip: for every valid state, the persisted snapshot is readable
/// and parses back to a state equal in every field to the one recorded.
pub proof fn lemma_snapshot_round_trip(s: LightingState)
    requires
        s.valid(),
    ensures
        snapshot_wf(spec_snapshot(s)),
        spec_parse(spec_snapshot(s)) == s,
{
}

} // verus!

//! Command dispatch and mode-switch sequencing.
//!
//! Every user-visible change is one [`Command`]. Applying a command
//! updates the state snapshot and yields the exact ordered sequence of
//! frames that must be written, each tagged with its endpoint. The caller
//! writes them in order (the hardware latches per-zone state
//! sequentially, so the order must not be changed) and then persists the
//! new snapshot.

use vstd::prelude::*;

use crate::frames::{
    encode_brightness_companion, encode_brightness_update, encode_dynamic, encode_static_zone,
    encode_zone_toggle, spec_brightness_frame, spec_companion_frame, spec_dynamic_frame,
    spec_static_zone_frame, spec_toggle_frame,
};
use crate::state::{
    spec_clamp_brightness, spec_clamp_speed, Direction, Effect, LightingState, Mode, Rgb, Zone,
};

verus! {

/// One of the two write-only device channels.
#[derive(Clone, Copy, PartialEq, Eq, Structural, Debug)]
pub enum Endpoint {
    /// Accepts 16-byte frames: animated effects and brightness.
    Dynamic,
    /// Accepts 8-byte frames: per-zone color and enable control.
    Static,
}

/// A frame ready to be written: the endpoint and the bytes of one atomic
/// write.
#[derive(Debug)]
pub struct Frame {
    pub endpoint: Endpoint,
    pub bytes: Vec<u8>,
}

impl View for Frame {
    type V = (Endpoint, Seq<u8>);

    open spec fn view(&self) -> (Endpoint, Seq<u8>) {
        (self.endpoint, self.bytes@)
    }
}

/// One user-visible change to the lighting configuration. Zone-addressed
/// commands carry a 1-based zone number.
#[derive(Clone, Copy, PartialEq, Eq, Structural, Debug)]
pub enum Command {
    SetMode(Mode),
    SetBrightness(u8),
    SetEffect(Effect),
    SetSpeed(u8),
    SetDirection(Direction),
    SetDynamicColor(Rgb),
    SetZoneColor(u8, Rgb),
    ToggleZone(u8),
}

impl Command {
    /// Zone-addressed commands must name one of the three real zones.
    pub open spec fn wf(self) -> bool {
        match self {
            Command::SetZoneColor(z, _) => 1 <= z <= 3,
            Command::ToggleZone(z) => 1 <= z <= 3,
            _ => true,
        }
    }
}

/// The state after a command: exactly one field group changes, and
/// numeric requests are clamped into their documented ranges.
pub open spec fn spec_step(s: LightingState, cmd: Command) -> LightingState {
    match cmd {
        Command::SetMode(m) => LightingState { mode: m, ..s },
        Command::SetBrightness(b) => LightingState { brightness: spec_clamp_brightness(b), ..s },
        Command::SetEffect(e) => LightingState { effect: e, ..s },
        Command::SetSpeed(v) => LightingState { speed: spec_clamp_speed(v), ..s },
        Command::SetDirection(d) => LightingState { direction: d, ..s },
        Command::SetDynamicColor(c) => LightingState { color: c, ..s },
        Command::SetZoneColor(z, c) => s.spec_with_zone(
            z as int,
            Zone { color: c, ..s.spec_zone(z as int) },
        ),
        Command::ToggleZone(z) => s.spec_with_zone(
            z as int,
            Zone { enabled: !s.spec_zone(z as int).enabled, ..s.spec_zone(z as int) },
        ),
    }
}

/// The fixed write sequence that latches full static-mode state: for each
/// zone 1, 2, 3 in increasing order, that zone's set-color frame on the
/// static endpoint followed by the brightness companion on the dynamic
/// endpoint.
pub open spec fn spec_static_switch_frames(s: LightingState) -> Seq<(Endpoint, Seq<u8>)> {
    seq![
        (Endpoint::Static, spec_static_zone_frame(s, 1)),
        (Endpoint::Dynamic, spec_companion_frame(s)),
        (Endpoint::Static, spec_static_zone_frame(s, 2)),
        (Endpoint::Dynamic, spec_companion_frame(s)),
        (Endpoint::Static, spec_static_zone_frame(s, 3)),
        (Endpoint::Dynamic, spec_companion_frame(s)),
    ]
}

/// The writes that bring the hardware in line with a snapshot: the full
/// static switch while static, one full dynamic update while dynamic.
pub open spec fn spec_sync_frames(s: LightingState) -> Seq<(Endpoint, Seq<u8>)> {
    if s.mode is Static {
        spec_static_switch_frames(s)
    } else {
        seq![(Endpoint::Dynamic, spec_dynamic_frame(s))]
    }
}

/// The ordered writes a command requires, over the state `n` that the
/// command produced.
pub open spec fn spec_frames_for(cmd: Command, n: LightingState) -> Seq<(Endpoint, Seq<u8>)> {
    match cmd {
        Command::SetMode(_) => spec_sync_frames(n),
        Command::SetBrightness(_) => seq![(Endpoint::Dynamic, spec_brightness_frame(n))],
        Command::SetEffect(_) => seq![(Endpoint::Dynamic, spec_dynamic_frame(n))],
        Command::SetSpeed(_) => seq![(Endpoint::Dynamic, spec_dynamic_frame(n))],
        Command::SetDirection(_) => seq![(Endpoint::Dynamic, spec_dynamic_frame(n))],
        Command::SetDynamicColor(_) => seq![(Endpoint::Dynamic, spec_dynamic_frame(n))],
        Command::SetZoneColor(z, _) => seq![
            (Endpoint::Static, spec_static_zone_frame(n, z as int)),
        ],
        Command::ToggleZone(z) => seq![(Endpoint::Static, spec_toggle_frame(n, z as int))],
    }
}

/// A single tagged frame as a write sequence.
fn single_frame(endpoint: Endpoint, bytes: Vec<u8>) -> (frames: Vec<Frame>)
    ensures
        frames@.map_values(|f: Frame| f@) == seq![(endpoint, bytes@)],
{
    let ghost b = bytes@;
    let mut frames: Vec<Frame> = Vec::new();
    frames.push(Frame { endpoint, bytes });
    proof {
        assert(frames@.map_values(|f: Frame| f@) =~= seq![(endpoint, b)]);
    }
    frames
}

/// Encode the writes that bring the hardware in line with `state`: the
/// full static switch (three set-color frames, each followed by the
/// brightness companion) while static, one full dynamic update while
/// dynamic. Used when the mode changes and once at startup, after the
/// persisted snapshot is loaded.
pub fn sync_frames(state: &LightingState) -> (frames: Vec<Frame>)
    ensures
        frames@.map_values(|f: Frame| f@) == spec_sync_frames(*state),
{
    match state.mode {
        Mode::Dynamic => single_frame(Endpoint::Dynamic, encode_dynamic(state)),
        Mode::Static => {
            let mut frames: Vec<Frame> = Vec::new();
            frames.push(Frame { endpoint: Endpoint::Static, bytes: encode_static_zone(state, 1) });
            frames.push(
                Frame { endpoint: Endpoint::Dynamic, bytes: encode_brightness_companion(state) },
            );
            frames.push(Frame { endpoint: Endpoint::Static, bytes: encode_static_zone(state, 2) });
            frames.push(
                Frame { endpoint: Endpoint::Dynamic, bytes: encode_brightness_companion(state) },
            );
            frames.push(Frame { endpoint: Endpoint::Static, bytes: encode_static_zone(state, 3) });
            frames.push(
                Frame { endpoint: Endpoint::Dynamic, bytes: encode_brightness_companion(state) },
            );
            proof {
                assert(frames@.map_values(|f: Frame| f@) =~= spec_static_switch_frames(*state));
            }
            frames
        },
    }
}

/// Apply one command: update the snapshot and return the ordered frames
/// to write. The caller writes every frame, in order, to its endpoint,
/// and then persists the new snapshot; a failed persist must not undo the
/// hardware writes.
pub fn apply(state: &mut LightingState, cmd: Command) -> (frames: Vec<Frame>)
    requires
        cmd.wf(),
    ensures
        *final(state) == spec_step(*old(state), cmd),
        frames@.map_values(|f: Frame| f@) == spec_frames_for(cmd, *final(state)),
{
    match cmd {
        Command::SetMode(m) => {
            state.set_mode(m);
            sync_frames(state)
        },
        Command::SetBrightness(b) => {
            state.set_brightness(b);
            single_frame(Endpoint::Dynamic, encode_brightness_update(state))
        },
        Command::SetEffect(e) => {
            state.set_effect(e);
            single_frame(Endpoint::Dynamic, encode_dynamic(state))
        },
        Command::SetSpeed(v) => {
            state.set_speed(v);
            single_frame(Endpoint::Dynamic, encode_dynamic(state))
        },
        Command::SetDirection(d) => {
            state.set_direction(d);
            single_frame(Endpoint::Dynamic, encode_dynamic(state))
        },
        Command::SetDynamicColor(c) => {
            state.set_dynamic_color(c);
            single_frame(Endpoint::Dynamic, encode_dynamic(state))
        },
        Command::SetZoneColor(z, c) => {
            state.set_zone_color(z, c);
            single_frame(Endpoint::Static, encode_static_zone(state, z))
        },
        Command::ToggleZone(z) => {
            state.flip_zone(z);
            single_frame(Endpoint::Static, encode_zone_toggle(state, z))
        },
    }
}

} // verus!

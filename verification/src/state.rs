//! In-memory lighting state: mode, brightness, dynamic-effect parameters,
//! and the three per-zone color/enable records.

use vstd::prelude::*;

verus! {

/// Which encoder path is active: fixed per-zone colors or a
/// hardware-driven animated effect.
#[derive(Clone, Copy, PartialEq, Eq, Structural, Debug)]
pub enum Mode {
    Static,
    Dynamic,
}

/// Animated effect selector. On the wire each effect is its 1-based
/// position in this list; 0 is never a valid effect code.
#[derive(Clone, Copy, PartialEq, Eq, Structural, Debug)]
pub enum Effect {
    Breathing,
    Neon,
    Wave,
    Shifting,
    Zoom,
    Meteor,
    Twinkling,
}

/// Direction of travel for directional effects.
#[derive(Clone, Copy, PartialEq, Eq, Structural, Debug)]
pub enum Direction {
    Neutral,
    LeftToRight,
    RightToLeft,
}

/// An RGB color triplet.
#[derive(Clone, Copy, PartialEq, Eq, Structural, Debug)]
pub struct Rgb {
    pub r: u8,
    pub g: u8,
    pub b: u8,
}

impl Rgb {
    pub open spec fn spec_white() -> Rgb {
        Rgb { r: 255, g: 255, b: 255 }
    }

    /// Full-intensity white, the default color everywhere.
    #[verifier::when_used_as_spec(spec_white)]
    pub fn white() -> (c: Rgb)
        ensures
            c == Rgb::spec_white(),
    {
        Rgb { r: 255, g: 255, b: 255 }
    }
}

/// One independently colorable keyboard region.
#[derive(Clone, Copy, PartialEq, Eq, Structural, Debug)]
pub struct Zone {
    pub color: Rgb,
    pub enabled: bool,
}

/// Snapshot of the whole lighting configuration. The three zones are a
/// fixed, ordered sequence corresponding to physical keyboard regions;
/// zone numbers are 1-based everywhere in the public interface, matching
/// the wire protocol.
#[derive(Clone, Copy, PartialEq, Eq, Structural, Debug)]
pub struct LightingState {
    pub mode: Mode,
    pub brightness: u8,
    pub effect: Effect,
    pub speed: u8,
    pub direction: Direction,
    pub color: Rgb,
    pub zone1: Zone,
    pub zone2: Zone,
    pub zone3: Zone,
}

/// Wire code for an effect: its 1-based position, never 0.
pub open spec fn spec_effect_code(e: Effect) -> u8 {
    match e {
        Effect::Breathing => 1,
        Effect::Neon => 2,
        Effect::Wave => 3,
        Effect::Shifting => 4,
        Effect::Zoom => 5,
        Effect::Meteor => 6,
        Effect::Twinkling => 7,
    }
}

#[verifier::when_used_as_spec(spec_effect_code)]
pub fn effect_code(e: Effect) -> (c: u8)
    ensures
        c == spec_effect_code(e),
{
    match e {
        Effect::Breathing => 1,
        Effect::Neon => 2,
        Effect::Wave => 3,
        Effect::Shifting => 4,
        Effect::Zoom => 5,
        Effect::Meteor => 6,
        Effect::Twinkling => 7,
    }
}

/// Wire code for a direction.
pub open spec fn spec_direction_code(d: Direction) -> u8 {
    match d {
        Direction::Neutral => 0,
        Direction::LeftToRight => 1,
        Direction::RightToLeft => 2,
    }
}

#[verifier::when_used_as_spec(spec_direction_code)]
pub fn direction_code(d: Direction) -> (c: u8)
    ensures
        c == spec_direction_code(d),
{
    match d {
        Direction::Neutral => 0,
        Direction::LeftToRight => 1,
        Direction::RightToLeft => 2,
    }
}

/// Brightness is meaningful from 0 to 100; anything above is clamped.
pub open spec fn spec_clamp_brightness(b: u8) -> u8 {
    if b > 100 {
        100
    } else {
        b
    }
}

#[verifier::when_used_as_spec(spec_clamp_brightness)]
pub fn clamp_brightness(b: u8) -> (r: u8)
    ensures
        r == spec_clamp_brightness(b),
{
    if b > 100 {
        100
    } else {
        b
    }
}

/// Effect speed is meaningful from 1 to 9; anything outside is clamped.
pub open spec fn spec_clamp_speed(v: u8) -> u8 {
    if v < 1 {
        1
    } else if v > 9 {
        9
    } else {
        v
    }
}

#[verifier::when_used_as_spec(spec_clamp_speed)]
pub fn clamp_speed(v: u8) -> (r: u8)
    ensures
        r == spec_clamp_speed(v),
{
    if v < 1 {
        1
    } else if v > 9 {
        9
    } else {
        v
    }
}

/// A zone-enable flag on the wire: 1 for enabled, 0 for disabled.
pub open spec fn spec_flag(on: bool) -> u8 {
    if on {
        1
    } else {
        0
    }
}

#[verifier::when_used_as_spec(spec_flag)]
pub fn flag(on: bool) -> (r: u8)
    ensures
        r == spec_flag(on),
{
    if on {
        1
    } else {
        0
    }
}

impl LightingState {
    /// The numeric fields sit inside their documented bounds. Every
    /// constructor and setter of this module establishes and preserves
    /// this; the encoders do not rely on it and clamp defensively.
    pub open spec fn valid(self) -> bool {
        &&& self.brightness <= 100
        &&& 1 <= self.speed <= 9
    }

    /// The three zones as an ordered sequence (0-based internally; the
    /// wire protocol and the public interface count zones from 1).
    pub open spec fn zones(self) -> Seq<Zone> {
        seq![self.zone1, self.zone2, self.zone3]
    }

    /// Zone record for 1-based zone number `z`.
    pub open spec fn spec_zone(self, z: int) -> Zone {
        if z == 1 {
            self.zone1
        } else if z == 2 {
            self.zone2
        } else {
            self.zone3
        }
    }

    pub fn zone(&self, z: u8) -> (r: Zone)
        requires
            1 <= z <= 3,
        ensures
            r == self.spec_zone(z as int),
    {
        if z == 1 {
            self.zone1
        } else if z == 2 {
            self.zone2
        } else {
            self.zone3
        }
    }

    /// The state with zone `z` replaced.
    pub open spec fn spec_with_zone(self, z: int, zone: Zone) -> LightingState {
        if z == 1 {
            LightingState { zone1: zone, ..self }
        } else if z == 2 {
            LightingState { zone2: zone, ..self }
        } else {
            LightingState { zone3: zone, ..self }
        }
    }

    /// The documented default configuration: static mode, full
    /// brightness, breathing effect at speed 5 running left to right,
    /// and all three zones white and enabled.
    pub open spec fn spec_default() -> LightingState {
        LightingState {
            mode: Mode::Static,
            brightness: 100,
            effect: Effect::Breathing,
            speed: 5,
            direction: Direction::LeftToRight,
            color: Rgb::spec_white(),
            zone1: Zone { color: Rgb::spec_white(), enabled: true },
            zone2: Zone { color: Rgb::spec_white(), enabled: true },
            zone3: Zone { color: Rgb::spec_white(), enabled: true },
        }
    }

    pub fn set_mode(&mut self, m: Mode)
        ensures
            *final(self) == (LightingState { mode: m, ..*old(self) }),
    {
        self.mode = m;
    }

    /// Out-of-range requests are clamped to 100, never rejected.
    pub fn set_brightness(&mut self, b: u8)
        ensures
            *final(self) == (LightingState { brightness: spec_clamp_brightness(b), ..*old(self) }),
            final(self).brightness <= 100,
    {
        self.brightness = if b > 100 { 100 } else { b };
    }

    pub fn set_effect(&mut self, e: Effect)
        ensures
            *final(self) == (LightingState { effect: e, ..*old(self) }),
    {
        self.effect = e;
    }

    /// Out-of-range requests are clamped into 1..=9, never rejected.
    pub fn set_speed(&mut self, v: u8)
        ensures
            *final(self) == (LightingState { speed: spec_clamp_speed(v), ..*old(self) }),
            1 <= final(self).speed <= 9,
    {
        self.speed = if v < 1 {
            1
        } else if v > 9 {
            9
        } else {
            v
        };
    }

    pub fn set_direction(&mut self, d: Direction)
        ensures
            *final(self) == (LightingState { direction: d, ..*old(self) }),
    {
        self.direction = d;
    }

    pub fn set_dynamic_color(&mut self, c: Rgb)
        ensures
            *final(self) == (LightingState { color: c, ..*old(self) }),
    {
        self.color = c;
    }

    /// Replace the color of zone `z` (1-based), keeping its enable flag.
    pub fn set_zone_color(&mut self, z: u8, c: Rgb)
        requires
            1 <= z <= 3,
        ensures
            *final(self) == old(self).spec_with_zone(
                z as int,
                Zone { color: c, ..old(self).spec_zone(z as int) },
            ),
    {
        if z == 1 {
            self.zone1.color = c;
        } else if z == 2 {
            self.zone2.color = c;
        } else {
            self.zone3.color = c;
        }
    }

    /// Flip the enable flag of zone `z` (1-based), keeping its color.
    pub fn flip_zone(&mut self, z: u8)
        requires
            1 <= z <= 3,
        ensures
            *final(self) == old(self).spec_with_zone(
                z as int,
                Zone {
                    enabled: !old(self).spec_zone(z as int).enabled,
                    ..old(self).spec_zone(z as int)
                },
            ),
    {
        if z == 1 {
            self.zone1.enabled = !self.zone1.enabled;
        } else if z == 2 {
            self.zone2.enabled = !self.zone2.enabled;
        } else {
            self.zone3.enabled = !self.zone3.enabled;
        }
    }
}

impl Default for LightingState {
    /// The fallback configuration used when no persisted snapshot can be
    /// read.
    fn default() -> (s: Self)
        ensures
            s == LightingState::spec_default(),
            s.valid(),
    {
        LightingState {
            mode: Mode::Static,
            brightness: 100,
            effect: Effect::Breathing,
            speed: 5,
            direction: Direction::LeftToRight,
            color: Rgb::white(),
            zone1: Zone { color: Rgb::white(), enabled: true },
            zone2: Zone { color: Rgb::white(), enabled: true },
            zone3: Zone { color: Rgb::white(), enabled: true },
        }
    }
}

} // verus!

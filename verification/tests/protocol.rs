use predator_ng::error::ProtocolError;
use predator_ng::frames::{
    encode_brightness_companion, encode_brightness_update, encode_dynamic, encode_static_zone,
    encode_zone_toggle,
};
use predator_ng::session::{apply, sync_frames, Command, Endpoint};
use predator_ng::snapshot::{parse_snapshot, snapshot_bytes};
use predator_ng::state::{Direction, Effect, LightingState, Mode, Rgb, Zone};

fn red() -> Rgb {
    Rgb { r: 255, g: 0, b: 0 }
}

fn dynamic_neon_state() -> LightingState {
    LightingState {
        mode: Mode::Dynamic,
        brightness: 100,
        effect: Effect::Neon,
        speed: 3,
        direction: Direction::RightToLeft,
        color: red(),
        ..LightingState::default()
    }
}

#[test]
fn default_state_fields() {
    let s = LightingState::default();
    assert_eq!(s.mode, Mode::Static);
    assert_eq!(s.brightness, 100);
    assert_eq!(s.effect, Effect::Breathing);
    assert_eq!(s.speed, 5);
    assert_eq!(s.direction, Direction::LeftToRight);
    assert_eq!(s.color, Rgb { r: 255, g: 255, b: 255 });
    for z in [s.zone1, s.zone2, s.zone3] {
        assert_eq!(z.color, Rgb { r: 255, g: 255, b: 255 });
        assert!(z.enabled);
    }
}

#[test]
fn scenario_enter_dynamic_from_default() {
    let mut s = LightingState::default();
    let frames = apply(&mut s, Command::SetMode(Mode::Dynamic));
    assert_eq!(s.mode, Mode::Dynamic);
    assert_eq!(frames.len(), 1);
    assert_eq!(frames[0].endpoint, Endpoint::Dynamic);
    assert_eq!(frames[0].bytes, vec![1, 5, 100, 0, 1, 255, 255, 255, 0, 1, 0, 0, 0, 0, 0, 0]);
}

#[test]
fn scenario_switch_to_static_from_default() {
    let mut s = LightingState::default();
    s.set_mode(Mode::Dynamic);
    let frames = apply(&mut s, Command::SetMode(Mode::Static));
    assert_eq!(frames.len(), 6);
    let companion = vec![0, 0, 100, 0, 0, 0, 0, 0, 0, 1, 0, 0, 0, 0, 0, 0];
    for z in 1..=3u8 {
        let zone_frame = &frames[(z as usize - 1) * 2];
        let companion_frame = &frames[(z as usize - 1) * 2 + 1];
        assert_eq!(zone_frame.endpoint, Endpoint::Static);
        assert_eq!(zone_frame.bytes, vec![0, 1 << (z - 1), 255, 255, 255, 1, 1, 1]);
        assert_eq!(companion_frame.endpoint, Endpoint::Dynamic);
        assert_eq!(companion_frame.bytes, companion);
    }
}

#[test]
fn scenario_toggle_zone_two_off() {
    let mut s = LightingState::default();
    assert_eq!(s.mode, Mode::Static);
    let frames = apply(&mut s, Command::ToggleZone(2));
    assert!(!s.zone2.enabled);
    assert!(s.zone1.enabled && s.zone3.enabled);
    assert_eq!(frames.len(), 1);
    assert_eq!(frames[0].endpoint, Endpoint::Static);
    assert_eq!(frames[0].bytes, vec![1, 2, 255, 255, 255, 1, 0, 1]);
    assert!(frames.iter().all(|f| f.endpoint != Endpoint::Dynamic));
}

#[test]
fn scenario_brightness_while_dynamic() {
    let mut s = dynamic_neon_state();
    let frames = apply(&mut s, Command::SetBrightness(50));
    assert_eq!(s.brightness, 50);
    assert_eq!(frames.len(), 1);
    assert_eq!(frames[0].endpoint, Endpoint::Dynamic);
    assert_eq!(frames[0].bytes, vec![2, 3, 50, 0, 2, 255, 0, 0, 0, 1, 0, 0, 0, 0, 0, 0]);
}

#[test]
fn brightness_while_static_masks_effect_bytes() {
    // Stored dynamic-effect fields are live, but the frame must zero them
    // because the mode is static.
    let mut s = dynamic_neon_state();
    s.set_mode(Mode::Static);
    let frames = apply(&mut s, Command::SetBrightness(75));
    assert_eq!(frames.len(), 1);
    assert_eq!(frames[0].endpoint, Endpoint::Dynamic);
    assert_eq!(frames[0].bytes, vec![0, 0, 75, 0, 0, 0, 0, 0, 0, 1, 0, 0, 0, 0, 0, 0]);
}

#[test]
fn dynamic_frames_well_formed() {
    let states = [LightingState::default(), dynamic_neon_state()];
    for s in states {
        for frame in [
            encode_dynamic(&s),
            encode_brightness_update(&s),
            encode_brightness_companion(&s),
        ] {
            assert_eq!(frame.len(), 16);
            assert_eq!(frame[9], 1);
            assert_eq!(frame[3], 0);
            assert_eq!(frame[8], 0);
            for i in 10..16 {
                assert_eq!(frame[i], 0);
            }
        }
    }
}

#[test]
fn zone_mask_is_one_hot() {
    let s = LightingState::default();
    for z in 1..=3u8 {
        let frame = encode_static_zone(&s, z);
        assert_eq!(frame.len(), 8);
        assert_eq!(frame[0], 0);
        assert_eq!(frame[1], 1 << (z - 1));
        assert_eq!(frame[1].count_ones(), 1);
    }
}

#[test]
fn toggle_byte_is_zone_number_not_mask() {
    let mut s = LightingState::default();
    s.flip_zone(3);
    for z in 1..=3u8 {
        let frame = encode_zone_toggle(&s, z);
        assert_eq!(frame.len(), 8);
        assert_eq!(frame[0], 1);
        assert_eq!(frame[1], z);
        // Opcode distinguishes it from the set-color frame.
        assert_ne!(frame[0], encode_static_zone(&s, z)[0]);
    }
    // Zone 3 was toggled off above; every frame reports all three flags.
    assert_eq!(&encode_zone_toggle(&s, 1)[5..8], &[1, 1, 0]);
}

#[test]
fn zone_color_edit_sends_single_static_frame() {
    let mut s = LightingState::default();
    let frames = apply(&mut s, Command::SetZoneColor(3, Rgb { r: 10, g: 20, b: 30 }));
    assert_eq!(s.zone3.color, Rgb { r: 10, g: 20, b: 30 });
    assert!(s.zone3.enabled);
    assert_eq!(frames.len(), 1);
    assert_eq!(frames[0].endpoint, Endpoint::Static);
    assert_eq!(frames[0].bytes, vec![0, 4, 10, 20, 30, 1, 1, 1]);
}

#[test]
fn dynamic_parameter_changes_send_full_frame() {
    let mut s = dynamic_neon_state();
    let frames = apply(&mut s, Command::SetEffect(Effect::Meteor));
    assert_eq!(frames[0].bytes, vec![6, 3, 100, 0, 2, 255, 0, 0, 0, 1, 0, 0, 0, 0, 0, 0]);
    let frames = apply(&mut s, Command::SetSpeed(9));
    assert_eq!(frames[0].bytes, vec![6, 9, 100, 0, 2, 255, 0, 0, 0, 1, 0, 0, 0, 0, 0, 0]);
    let frames = apply(&mut s, Command::SetDirection(Direction::Neutral));
    assert_eq!(frames[0].bytes, vec![6, 9, 100, 0, 0, 255, 0, 0, 0, 1, 0, 0, 0, 0, 0, 0]);
    let frames = apply(&mut s, Command::SetDynamicColor(Rgb { r: 0, g: 128, b: 0 }));
    assert_eq!(frames[0].bytes, vec![6, 9, 100, 0, 0, 0, 128, 0, 0, 1, 0, 0, 0, 0, 0, 0]);
    for f in [
        apply(&mut s, Command::SetEffect(Effect::Wave)),
        apply(&mut s, Command::SetSpeed(2)),
    ] {
        assert_eq!(f[0].endpoint, Endpoint::Dynamic);
        assert_eq!(f.len(), 1);
    }
}

#[test]
fn effect_codes_are_one_based_positions() {
    let effects = [
        (Effect::Breathing, 1u8),
        (Effect::Neon, 2),
        (Effect::Wave, 3),
        (Effect::Shifting, 4),
        (Effect::Zoom, 5),
        (Effect::Meteor, 6),
        (Effect::Twinkling, 7),
    ];
    let mut s = LightingState::default();
    s.set_mode(Mode::Dynamic);
    for (e, code) in effects {
        s.set_effect(e);
        let frame = encode_dynamic(&s);
        assert_eq!(frame[0], code);
        assert_ne!(frame[0], 0);
    }
}

#[test]
fn direction_codes() {
    let mut s = dynamic_neon_state();
    for (d, code) in [
        (Direction::Neutral, 0u8),
        (Direction::LeftToRight, 1),
        (Direction::RightToLeft, 2),
    ] {
        s.set_direction(d);
        assert_eq!(encode_dynamic(&s)[4], code);
    }
}

#[test]
fn encoding_same_state_twice_is_byte_identical() {
    let s = dynamic_neon_state();
    assert_eq!(encode_dynamic(&s), encode_dynamic(&s));
    assert_eq!(encode_brightness_update(&s), encode_brightness_update(&s));
    assert_eq!(encode_brightness_companion(&s), encode_brightness_companion(&s));
    for z in 1..=3u8 {
        assert_eq!(encode_static_zone(&s, z), encode_static_zone(&s, z));
        assert_eq!(encode_zone_toggle(&s, z), encode_zone_toggle(&s, z));
    }
}

#[test]
fn snapshot_round_trip_default() {
    let s = LightingState::default();
    let bytes = snapshot_bytes(&s);
    assert_eq!(bytes.len(), 20);
    let loaded = parse_snapshot(&bytes).expect("own snapshot must parse");
    assert_eq!(loaded, s);
}

#[test]
fn snapshot_round_trip_custom_state() {
    let s = LightingState {
        mode: Mode::Dynamic,
        brightness: 0,
        effect: Effect::Twinkling,
        speed: 9,
        direction: Direction::Neutral,
        color: Rgb { r: 75, g: 0, b: 130 },
        zone1: Zone { color: Rgb { r: 1, g: 2, b: 3 }, enabled: false },
        zone2: Zone { color: Rgb { r: 4, g: 5, b: 6 }, enabled: true },
        zone3: Zone { color: Rgb { r: 7, g: 8, b: 9 }, enabled: false },
    };
    let bytes = snapshot_bytes(&s);
    let loaded = parse_snapshot(&bytes).expect("own snapshot must parse");
    assert_eq!(loaded, s);
}

#[test]
fn snapshot_rejects_corrupt_records() {
    let good = snapshot_bytes(&LightingState::default());
    let corrupt = |i: usize, v: u8| {
        let mut b = good.clone();
        b[i] = v;
        b
    };
    let cases = vec![
        Vec::new(),
        good[..19].to_vec(),
        corrupt(0, 2),   // mode code out of range
        corrupt(1, 101), // brightness above 100
        corrupt(2, 0),   // effect code may never be 0
        corrupt(2, 8),   // effect code above 7
        corrupt(3, 0),   // speed below 1
        corrupt(3, 10),  // speed above 9
        corrupt(4, 3),   // direction code out of range
        corrupt(11, 2),  // zone 1 flag not 0/1
        corrupt(15, 7),  // zone 2 flag not 0/1
        corrupt(19, 255), // zone 3 flag not 0/1
    ];
    for bad in cases {
        assert_eq!(parse_snapshot(&bad), Err(ProtocolError::ConfigCorrupt));
    }
    // An over-long record is unreadable too.
    let mut long = good.clone();
    long.push(0);
    assert_eq!(parse_snapshot(&long), Err(ProtocolError::ConfigCorrupt));
    // The unmodified record still parses.
    assert!(parse_snapshot(&good).is_ok());
}

#[test]
fn setters_clamp_out_of_range_values() {
    let mut s = LightingState::default();
    s.set_brightness(200);
    assert_eq!(s.brightness, 100);
    s.set_brightness(33);
    assert_eq!(s.brightness, 33);
    s.set_speed(0);
    assert_eq!(s.speed, 1);
    s.set_speed(12);
    assert_eq!(s.speed, 9);
}

#[test]
fn encoders_clamp_defensively() {
    // A state that bypassed the setters is still encoded inside bounds.
    let mut s = dynamic_neon_state();
    s.brightness = 255;
    s.speed = 0;
    let frame = encode_dynamic(&s);
    assert_eq!(frame[1], 1);
    assert_eq!(frame[2], 100);
    let companion = encode_brightness_companion(&s);
    assert_eq!(companion[2], 100);
}

#[test]
fn startup_sync_matches_loaded_mode() {
    let s = LightingState::default();
    let frames = sync_frames(&s);
    assert_eq!(frames.len(), 6);
    assert_eq!(frames[0].endpoint, Endpoint::Static);

    let mut d = s;
    d.set_mode(Mode::Dynamic);
    let frames = sync_frames(&d);
    assert_eq!(frames.len(), 1);
    assert_eq!(frames[0].endpoint, Endpoint::Dynamic);
    assert_eq!(frames[0].bytes, vec![1, 5, 100, 0, 1, 255, 255, 255, 0, 1, 0, 0, 0, 0, 0, 0]);
}

#[test]
fn zone_accessor_is_one_based() {
    let mut s = LightingState::default();
    s.set_zone_color(1, Rgb { r: 11, g: 0, b: 0 });
    s.set_zone_color(2, Rgb { r: 22, g: 0, b: 0 });
    s.set_zone_color(3, Rgb { r: 33, g: 0, b: 0 });
    assert_eq!(s.zone(1).color.r, 11);
    assert_eq!(s.zone(2).color.r, 22);
    assert_eq!(s.zone(3).color.r, 33);
}

use wrcbus::protocol::commands::{
    Command52IndoorUnitResponse, Command52Request, Command54IndoorUnitResponse,
    Command55IndoorUnitResponse, Command64Request, CommandA0, CommandA2, CommandC5Request,
    CommandC5Response, CommandC6, CommandError, CommandD1, Mode, PowerState, PrecisionTemperature,
    StatusMode, Temperature, TemperatureProbeSource, TemperatureUnit, TrackingAssignAddress,
    TrackingCommandFA, TrackingCommandFB, TrackingDiscoverState, TrackingHello,
};

#[test]
fn command_a0_packs_bit_exactly() {
    let cmd = CommandA0 {
        unknown_byte0: 0xaa,
        unknown_byte1: 0xbb,
        fan_speed: 3,
        setpoint_temp: 21,
        s_plasma_ion: true,
        reset_clean_filter: false,
        humidifier: true,
        mode: Mode::Heat,
        unknown_bit32: false,
        unknown_bit33: true,
        power: true,
        unknown_bit35: true,
        unknown_byte5: 1,
        unknown_byte6: 2,
        unknown_byte7: 3,
    };
    assert_eq!(cmd.pack(), [0xaa, 0xbb, 0x75, 0x54, 0x70, 1, 2, 3]);
}

#[test]
fn command_a0_unpack_round_trips() {
    let bytes = [0xaa, 0xbb, 0x75, 0x54, 0x70, 1, 2, 3];
    let cmd = CommandA0::unpack(&bytes).expect("a well-formed payload");
    assert_eq!(cmd.fan_speed, 3);
    assert_eq!(cmd.setpoint_temp, 21);
    assert!(cmd.s_plasma_ion && !cmd.reset_clean_filter && cmd.humidifier);
    assert_eq!(cmd.mode, Mode::Heat);
    assert!(cmd.power && cmd.unknown_bit35);
    assert_eq!(cmd.pack(), bytes);
}

#[test]
fn command_a0_rejects_unknown_mode_bits() {
    // low three bits of the fourth byte name no mode
    let bytes = [0, 0, 0, 0x05, 0, 0, 0, 0];
    assert_eq!(CommandA0::unpack(&bytes), Err(CommandError::InvalidValue));
}

#[test]
fn command_a0_rejects_mismatched_power_bits() {
    // the power bit is set but its shadow bit is clear
    let bytes = [0, 0, 0, 0x00, 0x20, 0, 0, 0];
    assert_eq!(
        CommandA0::unpack(&bytes),
        Err(CommandError::InvariantViolation)
    );
}

#[test]
fn empty_request_accepts_only_zero_payloads() {
    assert!(Command52Request::unpack(&[0; 8]).is_ok());
    assert_eq!(
        Command52Request::unpack(&[0, 0, 0, 1, 0, 0, 0, 0]),
        Err(CommandError::InvariantViolation)
    );
    assert_eq!(Command52Request::new().pack(), [0; 8]);
    assert_eq!(CommandD1::new().pack(), [0; 8]);
}

#[test]
fn status_response_52_packs_bit_exactly() {
    let resp = Command52IndoorUnitResponse {
        setpoint_temp: Temperature::new(23, TemperatureUnit::Celsius),
        iu_room_temp: Temperature::new(20, TemperatureUnit::Celsius),
        iu_eva_inlet_temp: Temperature::new(40, TemperatureUnit::Celsius),
        fan_speed: 0,
        power: true,
        unknown_bit33: true,
        unknown_bit34: true,
        defrost: true,
        mode: StatusMode::Heat,
        clean_filter: true,
        iu_eva_outlet_temp: Temperature::new(18, TemperatureUnit::Celsius),
    };
    assert_eq!(resp.pack(), [0x4e, 0x4b, 0x5f, 0x00, 0xf1, 0x10, 0x00, 0x49]);
}

#[test]
fn status_response_52_rejects_unknown_mode_nibble() {
    let mut bytes = [0u8; 8];
    bytes[4] = 0x03; // 0b0011 names no mode
    assert_eq!(
        Command52IndoorUnitResponse::unpack(&bytes),
        Err(CommandError::InvalidValue)
    );
}

#[test]
fn status_response_54_round_trips() {
    let resp = Command54IndoorUnitResponse {
        oa_intake: true,
        away_mds: false,
        unknown_bit58: false,
        s_plasma_ion: true,
        unknown_bit60: false,
        range_hood: true,
        discharge_temp_control: false,
    };
    let bytes = resp.pack();
    assert_eq!(bytes, [0, 0, 0, 0, 0, 0, 0, 0x94]);
    assert_eq!(Command54IndoorUnitResponse::unpack(&bytes), Ok(resp));
}

#[test]
fn status_response_55_splits_the_first_byte() {
    let resp = Command55IndoorUnitResponse {
        humidity: 0x0a,
        co2: 0x03,
        unknown: [9, 8, 7, 6, 5, 4, 3],
    };
    let bytes = resp.pack();
    assert_eq!(bytes, [0xa3, 9, 8, 7, 6, 5, 4, 3]);
    let back = Command55IndoorUnitResponse::unpack(&bytes).unwrap();
    assert_eq!(back.humidity, 0x0a);
    assert_eq!(back.co2, 0x03);
    assert_eq!(back.unknown, [9, 8, 7, 6, 5, 4, 3]);
}

#[test]
fn temperature_is_offset_by_55() {
    let t = Temperature::new(23, TemperatureUnit::Celsius);
    assert_eq!(t.raw_value, 78);
    assert_eq!(t.celsius(), 23);
    let f = Temperature {
        unit: TemperatureUnit::Fahrenheit,
        raw_value: 70,
    };
    assert_eq!(f.celsius(), 70);
}

#[test]
fn precision_temperature_counts_tenths() {
    // 0x0229 = 553: exactly zero degrees
    let zero = PrecisionTemperature { high: 0x02, low: 0x29 };
    assert_eq!(zero.celsius_tenths(), 0);
    // 0x02ff = 767: 21.4 degrees
    let warm = PrecisionTemperature { high: 0x02, low: 0xff };
    assert_eq!(warm.celsius_tenths(), 214);
    // a negative sixteen-bit reading
    let odd = PrecisionTemperature { high: 0xff, low: 0xff };
    assert_eq!(odd.celsius_tenths(), -554);
}

#[test]
fn tracking_discover_states_use_two_bits() {
    let fb = TrackingCommandFB {
        state: TrackingDiscoverState::TrackingStart,
        unknown: [0; 7],
    };
    assert_eq!(fb.pack(), [2, 0, 0, 0, 0, 0, 0, 0]);
    let back = TrackingCommandFB::unpack(&[0x01, 0, 0, 0, 0, 0, 0, 0]).unwrap();
    assert_eq!(back.state, TrackingDiscoverState::DiscoverUnassigned);
    // the high bits outside the field are ignored
    let masked = TrackingCommandFB::unpack(&[0xfc, 0, 0, 0, 0, 0, 0, 0]).unwrap();
    assert_eq!(masked.state, TrackingDiscoverState::DiscoverAssigned);
    // value three names no sub-state
    assert_eq!(
        TrackingCommandFB::unpack(&[0x03, 0, 0, 0, 0, 0, 0, 0]),
        Err(CommandError::InvalidValue)
    );
}

#[test]
fn tracking_polarity_frame_is_fixed() {
    let fa = TrackingCommandFA::default();
    assert_eq!(fa.pack(), [0xaa, 0, 0, 0, 0, 0, 0, 0]);
    assert!(TrackingCommandFA::unpack(&[0xaa, 0, 0, 0, 0, 0, 0, 0]).is_ok());
    assert_eq!(
        TrackingCommandFA::unpack(&[0xaa, 0, 0, 1, 0, 0, 0, 0]),
        Err(CommandError::InvariantViolation)
    );
    assert_eq!(
        TrackingCommandFA::unpack(&[0xab, 0, 0, 0, 0, 0, 0, 0]),
        Err(CommandError::InvariantViolation)
    );
}

#[test]
fn short_tracking_commands_carry_one_byte() {
    assert_eq!(TrackingHello { unknown: 0x07 }.pack(), [0x07]);
    assert_eq!(TrackingAssignAddress { address: 0x05 }.pack(), [0x05]);
    assert_eq!(TrackingAssignAddress::unpack(&[0x09]).unwrap().address, 0x09);
}

#[test]
fn handover_c5_requires_its_fixed_first_byte() {
    let req = CommandC5Request {
        unknown_byte0: 0x22,
        unknown_byte1: 0x80,
        unknown: [0; 6],
    };
    assert_eq!(req.pack(), [0x22, 0x80, 0, 0, 0, 0, 0, 0]);
    assert!(CommandC5Request::unpack(&[0x22, 0, 0, 0, 0, 0, 0, 0]).is_ok());
    assert_eq!(
        CommandC5Request::unpack(&[0x21, 0, 0, 0, 0, 0, 0, 0]),
        Err(CommandError::InvariantViolation)
    );
    assert_eq!(CommandC5Response::default().pack(), [0x22, 0, 0, 0, 0, 0, 0, 0]);
}

#[test]
fn change_erv_settings_round_trips_and_rejects_odd_power_bits() {
    let cmd = CommandA2 {
        fan_speed: 5,
        clean_up: true,
        other_mode: 2,
        power: PowerState::On,
    };
    let bytes = cmd.pack();
    assert_eq!(bytes, [0, 0, 0xa0, 0x50, 0x30, 0, 0, 0]);
    assert_eq!(CommandA2::unpack(&bytes), Ok(cmd));

    // only both power bits set or both clear name a state
    let bad = [0, 0, 0, 0, 0x10, 0, 0, 0];
    assert_eq!(CommandA2::unpack(&bad), Err(CommandError::InvalidValue));
}

#[test]
fn temperature_report_round_trips() {
    let cmd = Command64Request {
        unknown_b0: 0x01,
        unknown_b1_8_14: 0x33,
        active_temp_sensor: TemperatureProbeSource::WiredRemoteSensor,
        wrc_temperature: PrecisionTemperature { high: 0x02, low: 0x29 },
        iu_temperature: PrecisionTemperature { high: 0x02, low: 0xff },
        unknown2: 0,
        unknown3: 0,
    };
    let bytes = cmd.pack();
    assert_eq!(bytes, [0x01, 0x67, 0x02, 0x29, 0x02, 0xff, 0, 0]);
    assert_eq!(Command64Request::unpack(&bytes), Ok(cmd));
}

#[test]
fn bus_status_c6_requires_its_fixed_first_byte() {
    let c6 = CommandC6 {
        unknown_byte0: 0x22,
        number_of_indoor_units: 2,
        unknown: [0x20, 0xb0, 0, 0, 0, 0],
    };
    assert_eq!(c6.pack(), [0x22, 2, 0x20, 0xb0, 0, 0, 0, 0]);
    assert_eq!(
        CommandC6::unpack(&[0x00, 2, 0, 0, 0, 0, 0, 0]),
        Err(CommandError::InvariantViolation)
    );
}

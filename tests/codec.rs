use pololu_motoron::checksum::get_crc;
use pololu_motoron::commands::{
    decode_response, encode_command, write_inverted_bytes, BrakingMode, ClearLatchedStatusFlags,
    ClearMotorFault, CoastNow, Command, Error, FirmwareVersion, GetFirmwareVersion, GetVariables,
    MultiDeviceErrorCheck, MultiDeviceErrorCheckReponse, MultiDeviceWrite, ReadEeprom,
    Reinitialise, Reset, ResetCommandTimeout, Response, SetAllSpeeds, SetAllSpeedsUsingBuffers,
    SetBraking, SetLatchedStatusFlags, SetProtocolOptions, SetSpeed, SetVariable, SpeedMode,
    SpeedModeNoBuffer, WriteEeprom,
};
use pololu_motoron::ControllerType;

fn body_of<C: Command>(cmd: &C) -> Result<Vec<u8>, Error> {
    let mut bytes = Vec::new();
    cmd.encode_body(&mut bytes).map(|()| bytes)
}

#[test]
fn checksum_of_known_messages() {
    assert_eq!(get_crc(&[]), 0);
    assert_eq!(get_crc(&[0x87]), 0x3C);
    assert_eq!(get_crc(&[0x8B, 0x07, 0x78]), 0x2F);
    assert_eq!(get_crc(&[0xD1, 0x01, 0x20, 0x06]), 0x4E);
}

#[test]
fn checksum_trailer_recomputes() {
    for m in [vec![], vec![0x00], vec![0x12, 0x34, 0x56], vec![0xFF; 40]] {
        let mut framed = m.clone();
        framed.push(get_crc(&m));
        assert_eq!(get_crc(&framed[..m.len()]), framed[m.len()]);
    }
}

#[test]
fn fourteen_bit_split_reassembles() {
    for v in [0u16, 1, 0x7F, 0x80, 0x1234, 0x2AAA, 0x3FFF] {
        let body = body_of(&SetVariable { motor: 0, offset: 0, value: v }).unwrap();
        assert!(body[2] < 0x80 && body[3] < 0x80);
        assert_eq!(u16::from(body[2]) | (u16::from(body[3]) << 7), v);
    }
}

#[test]
fn firmware_query_frame_with_checksum() {
    let frame = encode_command(&GetFirmwareVersion, true).unwrap();
    assert_eq!(frame, vec![0x87, get_crc(&[0x87])]);
    assert_eq!(frame, vec![0x87, 0x3C]);
}

#[test]
fn firmware_query_frame_without_checksum() {
    assert_eq!(encode_command(&GetFirmwareVersion, false).unwrap(), vec![0x87]);
    assert_eq!(GetFirmwareVersion.expected_response_bytes(), 4);
}

#[test]
fn firmware_version_decodes_four_bytes() {
    let expected = FirmwareVersion { product_id: 0x000C, minor_fw_version: 1, major_fw_version: 2 };
    let r = decode_response::<GetFirmwareVersion>(vec![0x0C, 0x00, 0x01, 0x02, 0x73], true);
    assert_eq!(r, Ok(expected));
    let r = decode_response::<GetFirmwareVersion>(vec![0x34, 0x12, 0x05, 0x01], false);
    assert_eq!(
        r,
        Ok(FirmwareVersion { product_id: 0x1234, minor_fw_version: 5, major_fw_version: 1 })
    );
}

#[test]
fn firmware_version_rejects_three_or_five_bytes() {
    assert_eq!(
        FirmwareVersion::parse(vec![1, 2, 3]),
        Err(Error::InvalidResponseLength { expected: 4, actual: 3 })
    );
    assert_eq!(
        FirmwareVersion::parse(vec![1, 2, 3, 4, 5]),
        Err(Error::InvalidResponseLength { expected: 4, actual: 5 })
    );
    let three = vec![1, 2, 3];
    let mut framed = three.clone();
    framed.push(get_crc(&three));
    assert_eq!(
        decode_response::<GetFirmwareVersion>(framed, true),
        Err(Error::InvalidResponseLength { expected: 4, actual: 3 })
    );
}

#[test]
fn decode_rejects_bad_checksum() {
    assert_eq!(
        decode_response::<GetFirmwareVersion>(vec![0x0C, 0x00, 0x01, 0x02, 0x00], true),
        Err(Error::InvalidResponseCrc { expected: 0x73, actual: 0x00 })
    );
}

#[test]
fn decode_rejects_empty_frame_with_checksum() {
    assert_eq!(
        decode_response::<Reinitialise>(vec![], true),
        Err(Error::InvalidResponseLength { expected: 1, actual: 0 })
    );
    assert_eq!(decode_response::<Reinitialise>(vec![], false), Ok(()));
}

#[test]
fn empty_and_raw_responses() {
    assert_eq!(<()>::parse(vec![]), Ok(()));
    assert_eq!(<()>::parse(vec![9]), Err(Error::InvalidResponseLength { expected: 0, actual: 1 }));
    assert_eq!(Vec::<u8>::parse(vec![7, 8, 9]), Ok(vec![7, 8, 9]));
    let data = vec![1, 2, 3];
    let mut framed = data.clone();
    framed.push(get_crc(&data));
    assert_eq!(decode_response::<ReadEeprom>(framed, true), Ok(vec![1, 2, 3]));
}

fn too_large_value() -> Error {
    Error::InvalidValue { min: 0, max: 0x3FFF, value: 0x4000, field: "value" }
}

#[test]
fn set_variable_out_of_range_writes_nothing() {
    let cmd = SetVariable { motor: 0, offset: 0, value: 0x4000 };
    let mut bytes = vec![0xAA];
    assert_eq!(cmd.encode_body(&mut bytes), Err(too_large_value()));
    assert_eq!(bytes, vec![0xAA]);
    assert_eq!(encode_command(&cmd, true), Err(too_large_value()));
    assert_eq!(encode_command(&cmd, false), Err(too_large_value()));
}

#[test]
fn set_variable_frame() {
    let cmd = SetVariable { motor: 2, offset: 0x10, value: 0x1234 };
    assert_eq!(cmd.code(), 0x9C);
    assert_eq!(cmd.num_bytes(), 4);
    assert_eq!(encode_command(&cmd, false).unwrap(), vec![0x9C, 2, 0x10, 0x34, 0x24]);
    assert_eq!(
        body_of(&SetVariable { motor: 4, offset: 0, value: 0 }),
        Err(Error::InvalidValue { min: 0, max: 3, value: 4, field: "motor" })
    );
    assert_eq!(
        body_of(&SetVariable { motor: 0, offset: 0x80, value: 0 }),
        Err(Error::InvalidValue { min: 0, max: 0x7F, value: 0x80, field: "offset" })
    );
}

#[test]
fn protocol_options_frame_with_inverse() {
    let cmd = SetProtocolOptions {
        crc_for_commands: true,
        crc_for_responses: true,
        i2c_general_call: true,
    };
    assert_eq!(encode_command(&cmd, true).unwrap(), vec![0x8B, 0x07, 0x78, 0x2F]);
    let cmd = SetProtocolOptions {
        crc_for_commands: false,
        crc_for_responses: true,
        i2c_general_call: false,
    };
    assert_eq!(encode_command(&cmd, false).unwrap(), vec![0x8B, 0x02, 0x7D]);
}

#[test]
fn eeprom_commands() {
    let w = WriteEeprom { offset: 5, value: 0xC3 };
    assert_eq!(w.num_bytes(), 6);
    assert_eq!(body_of(&w).unwrap(), vec![5, 1, 0x43, 0x7A, 0x7E, 0x3C]);
    assert_eq!(body_of(&WriteEeprom { offset: 0, value: 0x12 }).unwrap(), vec![0, 0, 0x12, 0x7F, 0x7F, 0x6D]);
    assert_eq!(
        body_of(&WriteEeprom { offset: 0x80, value: 0 }),
        Err(Error::InvalidValue { min: 0, max: 0x7F, value: 0x80, field: "offset" })
    );
    let r = ReadEeprom { offset: 3, length: 32 };
    assert_eq!(encode_command(&r, false).unwrap(), vec![0x93, 3, 32]);
    assert_eq!(r.expected_response_bytes(), 32);
    assert_eq!(
        body_of(&ReadEeprom { offset: 3, length: 0 }),
        Err(Error::InvalidValue { min: 1, max: 32, value: 0, field: "length" })
    );
    assert_eq!(
        body_of(&ReadEeprom { offset: 3, length: 33 }),
        Err(Error::InvalidValue { min: 1, max: 32, value: 33, field: "length" })
    );
}

#[test]
fn get_variables_command() {
    let g = GetVariables { motor: 1, offset: 2, length: 3 };
    assert_eq!(encode_command(&g, false).unwrap(), vec![0x9A, 1, 2, 3]);
    assert_eq!(g.expected_response_bytes(), 3);
    assert_eq!(
        body_of(&GetVariables { motor: 4, offset: 2, length: 3 }),
        Err(Error::InvalidValue { min: 0, max: 3, value: 4, field: "motor" })
    );
}

#[test]
fn bodiless_commands() {
    assert_eq!(encode_command(&Reinitialise, false).unwrap(), vec![0x96]);
    assert_eq!(encode_command(&Reset, false).unwrap(), vec![0x99]);
    assert_eq!(encode_command(&CoastNow, false).unwrap(), vec![0xA5]);
    assert_eq!(encode_command(&ResetCommandTimeout, false).unwrap(), vec![0xF5]);
    assert_eq!(encode_command(&Reinitialise, true).unwrap(), vec![0x96, 0x74]);
    let commit = SetAllSpeedsUsingBuffers { mode: SpeedModeNoBuffer::Normal };
    assert_eq!(encode_command(&commit, true).unwrap(), vec![0xF0, 0x77]);
    let commit = SetAllSpeedsUsingBuffers { mode: SpeedModeNoBuffer::Now };
    assert_eq!(encode_command(&commit, false).unwrap(), vec![0xF3]);
}

#[test]
fn clear_motor_fault_flag() {
    assert_eq!(body_of(&ClearMotorFault { unconditional: true }).unwrap(), vec![1]);
    assert_eq!(body_of(&ClearMotorFault { unconditional: false }).unwrap(), vec![0]);
}

#[test]
fn latched_status_flags() {
    assert_eq!(
        encode_command(&ClearLatchedStatusFlags { flags: 0x3FF }, false).unwrap(),
        vec![0xA9, 0x7F, 0x07]
    );
    assert_eq!(
        encode_command(&SetLatchedStatusFlags { flags: 0x081 }, false).unwrap(),
        vec![0xAC, 0x01, 0x01]
    );
    assert_eq!(
        body_of(&ClearLatchedStatusFlags { flags: 0x400 }),
        Err(Error::InvalidValue { min: 0, max: 0x3FF, value: 0x400, field: "flags" })
    );
    assert_eq!(
        body_of(&SetLatchedStatusFlags { flags: 0x400 }),
        Err(Error::InvalidValue { min: 0, max: 0x3FF, value: 0x400, field: "flags" })
    );
}

#[test]
fn set_speed_modes_and_bytes() {
    let cmd = SetSpeed { mode: SpeedMode::Normal, motor: 1, speed: 800 };
    assert_eq!(encode_command(&cmd, true).unwrap(), vec![0xD1, 1, 0x20, 0x06, 0x4E]);
    let cmd = SetSpeed { mode: SpeedMode::Now, motor: 2, speed: -800 };
    assert_eq!(encode_command(&cmd, false).unwrap(), vec![0xD2, 2, 0x60, 0x79]);
    let cmd = SetSpeed { mode: SpeedMode::Buffered, motor: 3, speed: -1 };
    assert_eq!(encode_command(&cmd, false).unwrap(), vec![0xD4, 3, 0x7F, 0x7F]);
    assert_eq!(
        body_of(&SetSpeed { mode: SpeedMode::Normal, motor: 1, speed: 801 }),
        Err(Error::InvalidValue { min: -800, max: 800, value: 801, field: "speed" })
    );
    assert_eq!(
        body_of(&SetSpeed { mode: SpeedMode::Normal, motor: 4, speed: 0 }),
        Err(Error::InvalidValue { min: 0, max: 3, value: 4, field: "motor" })
    );
}

#[test]
fn set_all_speeds_bytes() {
    let cmd = SetAllSpeeds { mode: SpeedMode::Normal, speeds: vec![800, -800] };
    assert_eq!(cmd.num_bytes(), 4);
    assert_eq!(encode_command(&cmd, true).unwrap(), vec![0xE1, 0x20, 0x06, 0x60, 0x79, 0x65]);
    let cmd = SetAllSpeeds { mode: SpeedMode::Buffered, speeds: vec![] };
    assert_eq!(encode_command(&cmd, false).unwrap(), vec![0xE4]);
    let cmd = SetAllSpeeds { mode: SpeedMode::Now, speeds: vec![0, 900, -900] };
    let mut bytes = vec![];
    assert_eq!(
        cmd.encode_body(&mut bytes),
        Err(Error::InvalidValue { min: -800, max: 800, value: 900, field: "speeds" })
    );
    assert!(bytes.is_empty());
    assert_eq!(cmd.code(), 0xE2);
}

#[test]
fn set_braking_command() {
    let cmd = SetBraking { mode: BrakingMode::Now, motor: 3, ammount: 800 };
    assert_eq!(encode_command(&cmd, false).unwrap(), vec![0xB2, 3, 0x20, 0x06]);
    let cmd = SetBraking { mode: BrakingMode::Normal, motor: 1, ammount: 0 };
    assert_eq!(encode_command(&cmd, false).unwrap(), vec![0xB1, 1, 0, 0]);
    assert_eq!(
        body_of(&SetBraking { mode: BrakingMode::Normal, motor: 0, ammount: 0 }),
        Err(Error::InvalidValue { min: 1, max: 3, value: 0, field: "motor" })
    );
    assert_eq!(
        body_of(&SetBraking { mode: BrakingMode::Normal, motor: 1, ammount: 801 }),
        Err(Error::InvalidValue { min: 0, max: 800, value: 801, field: "ammount" })
    );
}

#[test]
fn multi_device_error_check_command() {
    let cmd = MultiDeviceErrorCheck { starting_device_number: 1, device_count: 0x7F };
    assert_eq!(encode_command(&cmd, false).unwrap(), vec![0xF5, 1, 0x7F]);
    assert_eq!(cmd.expected_response_bytes(), 1);
    assert_eq!(
        body_of(&MultiDeviceErrorCheck { starting_device_number: 0x80, device_count: 1 }),
        Err(Error::InvalidValue { min: 0, max: 0x7F, value: 0x80, field: "starting_device_number" })
    );
    assert_eq!(
        body_of(&MultiDeviceErrorCheck { starting_device_number: 0, device_count: 0x80 }),
        Err(Error::InvalidValue { min: 0, max: 0x7F, value: 0x80, field: "device_count" })
    );
}

#[test]
fn multi_device_error_check_unknown_byte() {
    assert_eq!(
        MultiDeviceErrorCheckReponse::parse(vec![0x7F]),
        Ok(MultiDeviceErrorCheckReponse::Unknown(0x7F))
    );
    assert_eq!(
        MultiDeviceErrorCheckReponse::parse(vec![0x00]),
        Ok(MultiDeviceErrorCheckReponse::ErrorActive)
    );
    assert_eq!(
        MultiDeviceErrorCheckReponse::parse(vec![0x3C]),
        Ok(MultiDeviceErrorCheckReponse::AllOk)
    );
    assert_eq!(
        MultiDeviceErrorCheckReponse::parse(vec![0x3C, 0x3C]),
        Err(Error::InvalidResponseLength { expected: 1, actual: 2 })
    );
    assert_eq!(
        MultiDeviceErrorCheckReponse::parse(vec![]),
        Err(Error::InvalidResponseLength { expected: 1, actual: 0 })
    );
}

#[test]
fn multi_device_write_wraps_inner_command() {
    let cmd = MultiDeviceWrite {
        starting_device_number: 2,
        device_count: 3,
        command: SetSpeed { mode: SpeedMode::Normal, motor: 1, speed: 800 },
    };
    assert_eq!(cmd.code(), 0xF9);
    assert_eq!(cmd.num_bytes(), 7);
    assert_eq!(encode_command(&cmd, false).unwrap(), vec![0xF9, 2, 3, 3, 0xD1, 1, 0x20, 0x06]);
    let bad_inner = MultiDeviceWrite {
        starting_device_number: 2,
        device_count: 3,
        command: SetSpeed { mode: SpeedMode::Normal, motor: 1, speed: 1000 },
    };
    let mut bytes = vec![];
    assert_eq!(
        bad_inner.encode_body(&mut bytes),
        Err(Error::InvalidValue { min: -800, max: 800, value: 1000, field: "speed" })
    );
    assert!(bytes.is_empty());
    let bad_range = MultiDeviceWrite {
        starting_device_number: 0x80,
        device_count: 3,
        command: Reinitialise,
    };
    assert_eq!(
        body_of(&bad_range),
        Err(Error::InvalidValue { min: 0, max: 0x7F, value: 0x80, field: "starting_device_number" })
    );
}

#[test]
fn inverted_bytes_are_appended() {
    let mut data = vec![0x01, 0x7F, 0x00];
    write_inverted_bytes(&mut data, 1, 3);
    assert_eq!(data, vec![0x01, 0x7F, 0x00, 0x00, 0x7F]);
}

#[test]
fn motor_channel_counts() {
    assert_eq!(ControllerType::M1T550.motor_channels(), 1);
    assert_eq!(ControllerType::M1U256.motor_channels(), 1);
    assert_eq!(ControllerType::M2T256.motor_channels(), 2);
    assert_eq!(ControllerType::M2H18v20.motor_channels(), 2);
    assert_eq!(ControllerType::M3S550.motor_channels(), 3);
    assert_eq!(ControllerType::M3H256.motor_channels(), 3);
}

use pololu_motoron::checksum::get_crc;
use pololu_motoron::commands::{Error as CommandsError, FirmwareVersion, SetSpeed, SpeedMode};
use pololu_motoron::{
    ClearLatchedStatusFlags, ControllerType, Error, ProtocolOptions, Session, RESET_SETTLE_MILLIS,
};

fn with_crc(mut frame: Vec<u8>) -> Vec<u8> {
    let c = get_crc(&frame);
    frame.push(c);
    frame
}

#[test]
fn new_session_sends_all_options() {
    let s = Session::new(ControllerType::M2T256);
    assert_eq!(s.controller_type(), ControllerType::M2T256);
    assert_eq!(
        s.options(),
        ProtocolOptions { crc_for_commands: true, crc_for_responses: true, i2c_general_call: true }
    );
    assert_eq!(s.protocol_options_frame(), vec![0x8B, 0x07, 0x78, 0x2F]);
}

#[test]
fn disabling_and_enabling_checksums() {
    let mut s = Session::new(ControllerType::M1T550);
    let off = s.disable_crc();
    assert_eq!(off, vec![0x8B, 0x04, 0x7B]);
    assert!(!s.options().crc_for_commands && !s.options().crc_for_responses);
    assert!(s.options().i2c_general_call);
    assert_eq!(s.firmware_version_frame(), vec![0x87]);
    assert_eq!(s.firmware_version_response_len(), 4);
    let on = s.enable_crc();
    assert_eq!(on, vec![0x8B, 0x07, 0x78, 0x2F]);
    assert_eq!(s.firmware_version_response_len(), 5);
}

#[test]
fn speed_on_two_channel_controller() {
    let s = Session::new(ControllerType::M2T256);
    let frame = s.set_speed(0, 800).unwrap();
    assert_eq!(frame, vec![0xD1, 1, 0x20, 0x06, 0x4E]);
    assert_eq!(frame[0], 0xD1);
    assert_eq!(frame[1], 1);
    assert_eq!(u16::from(frame[2]) | (u16::from(frame[3]) << 7), 800);
    assert_eq!(s.set_speed(2, 800), Err(Error::InvalidMotor { provided: 2, num_motors: 2 }));
}

#[test]
fn speed_out_of_wire_range() {
    let s = Session::new(ControllerType::M3S550);
    assert_eq!(
        s.set_speed(2, -801),
        Err(Error::Command(CommandsError::InvalidValue {
            min: -800,
            max: 800,
            value: -801,
            field: "speed",
        }))
    );
}

#[test]
fn speed_command_counts_motors_from_one() {
    let s = Session::new(ControllerType::M3H256);
    match s.speed_command(2, -400, SpeedMode::Buffered) {
        Ok(SetSpeed { mode: SpeedMode::Buffered, motor, speed }) => {
            assert_eq!(motor, 3);
            assert_eq!(speed, -400);
        }
        _ => panic!("expected a buffered speed command"),
    }
    assert!(matches!(
        s.speed_command(3, 0, SpeedMode::Now),
        Err(Error::InvalidMotor { provided: 3, num_motors: 3 })
    ));
}

#[test]
fn all_speeds_need_one_per_motor() {
    let s = Session::new(ControllerType::M2T256);
    assert_eq!(
        s.set_all_speeds(vec![0, 0, 0]),
        Err(Error::IncorrectNumberSpeeds { provided: 3, actual: 2 })
    );
    assert_eq!(
        s.set_all_speeds(vec![800, -800]).unwrap(),
        vec![0xE1, 0x20, 0x06, 0x60, 0x79, 0x65]
    );
}

#[test]
fn multi_speed_buffers_then_commits() {
    let s = Session::new(ControllerType::M2T256);
    let frames = s.set_multi_speed(&[(0, 800), (1, -800)]).unwrap();
    assert_eq!(frames.len(), 3);
    assert_eq!(frames[0], with_crc(vec![0xD4, 1, 0x20, 0x06]));
    assert_eq!(frames[1], with_crc(vec![0xD4, 2, 0x60, 0x79]));
    assert_eq!(frames[2], vec![0xF0, 0x77]);
    assert_eq!(
        s.set_multi_speed(&[(0, 800), (5, 0)]),
        Err(Error::InvalidMotor { provided: 5, num_motors: 2 })
    );
    assert_eq!(s.set_multi_speed(&[]).unwrap(), vec![vec![0xF0, 0x77]]);
}

#[test]
fn reinitialise_resends_options() {
    let mut s = Session::new(ControllerType::M2T256);
    let frames = s.reinitialise_frames();
    assert_eq!(frames, vec![vec![0x96, 0x74], vec![0x8B, 0x07, 0x78, 0x2F]]);
    s.disable_crc();
    assert_eq!(s.reinitialise_frames(), vec![vec![0x96], vec![0x8B, 0x04, 0x7B]]);
    assert_eq!(RESET_SETTLE_MILLIS, 10);
}

#[test]
fn clearing_latched_flags() {
    let s = Session::new(ControllerType::M2T256);
    assert_eq!(
        s.clear_latched_status_flags(ClearLatchedStatusFlags { flags: 0x0201 }).unwrap(),
        with_crc(vec![0xA9, 0x01, 0x04])
    );
    assert_eq!(
        s.clear_latched_status_flags(ClearLatchedStatusFlags { flags: 0x0400 }),
        Err(Error::Command(CommandsError::InvalidValue {
            min: 0,
            max: 0x3FF,
            value: 0x400,
            field: "flags",
        }))
    );
}

#[test]
fn firmware_version_round() {
    let s = Session::new(ControllerType::M2T256);
    assert_eq!(s.firmware_version_frame(), vec![0x87, 0x3C]);
    assert_eq!(s.firmware_version_response_len(), 5);
    let reply = with_crc(vec![0x0C, 0x00, 0x01, 0x02]);
    assert_eq!(
        s.firmware_version_from(reply),
        Ok(FirmwareVersion { product_id: 0x000C, minor_fw_version: 1, major_fw_version: 2 })
    );
    assert_eq!(
        s.firmware_version_from(vec![0x0C, 0x00, 0x01, 0x02, 0x00]),
        Err(Error::Command(CommandsError::InvalidResponseCrc { expected: 0x73, actual: 0 }))
    );
    assert_eq!(
        s.firmware_version_from(with_crc(vec![1, 2, 3, 4, 5])),
        Err(Error::Command(CommandsError::InvalidResponseLength { expected: 4, actual: 5 }))
    );
}

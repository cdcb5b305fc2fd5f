//! The protocol session: the state a host keeps for one controller, and the frames that each
//! high-level operation puts on the bus. The caller performs the bus transfers themselves: it
//! writes each frame handed out here, in order, and hands back the bytes it reads.

use vstd::prelude::*;
use crate::commands::{
    decode_response, encode_command, firmware_version_of, frame, invalid_value, options_byte,
    speed_bytes, speeds_body, split14, unframe, ClearLatchedStatusFlags, Command,
    Error as CommandsError, FirmwareVersion, GetFirmwareVersion, Reinitialise, Response,
    SetAllSpeeds, SetAllSpeedsUsingBuffers, SetProtocolOptions, SetSpeed, SpeedMode,
    SpeedModeNoBuffer,
};
use crate::controllers::{channels_of, ControllerType};

verus! {

/// How long the device needs after a reset before it takes the protocol options again.
pub const RESET_SETTLE_MILLIS: u64 = 10;

/// Errors of the session layer.
#[derive(Debug, PartialEq, Eq)]
#[allow(inconsistent_fields)]
pub enum Error {
    /// An error of the command layer: an argument out of range or a malformed response.
    Command(CommandsError),
    /// The motor index is not below the number of motors of the controller.
    InvalidMotor { provided: u8, num_motors: u8 },
    /// Setting all speeds at once takes exactly one speed per motor.
    IncorrectNumberSpeeds { provided: usize, actual: u8 },
}

/// An error of the command layer, lifted to the session layer.
pub open spec fn lift<T>(r: Result<T, CommandsError>) -> Result<T, Error> {
    match r {
        Ok(v) => Ok(v),
        Err(e) => Err(Error::Command(e)),
    }
}

/// The protocol options that the session keeps in step with the device.
#[derive(Debug, Clone, Copy, PartialEq, Eq, Hash, Structural)]
pub struct ProtocolOptions {
    pub crc_for_commands: bool,
    pub crc_for_responses: bool,
    pub i2c_general_call: bool,
}

/// The frame that sends the options `o` to the device, itself checksummed as `o` asks.
pub open spec fn options_frame(o: ProtocolOptions) -> Seq<u8> {
    let b = options_byte(o.crc_for_commands, o.crc_for_responses, o.i2c_general_call);
    frame(0x8B, seq![b, b ^ 0x7F], o.crc_for_commands)
}

/// The frame that sets one motor's speed with opcode `code`, or why there is none: the motor
/// index must be below `channels`, and the speed within `[-800, 800]`. The wire index of the
/// motor is one more than `motor_idx`.
pub open spec fn speed_frame(motor_idx: u8, speed: i16, code: u8, channels: u8, crc: bool) -> Result<
    Seq<u8>,
    Error,
> {
    if motor_idx >= channels {
        Err(Error::InvalidMotor { provided: motor_idx, num_motors: channels })
    } else if speed < -800 || speed > 800 {
        Err(Error::Command(invalid_value("speed", -800i32, 800, speed as i32)))
    } else {
        Ok(frame(code, seq![(motor_idx + 1) as u8] + speed_bytes(speed), crc))
    }
}

/// The frames that buffer the speed of each pair in turn, or the error of the first pair that
/// has none.
pub open spec fn buffered_speed_frames(pairs: Seq<(u8, i16)>, channels: u8, crc: bool) -> Result<
    Seq<Seq<u8>>,
    Error,
>
    decreases pairs.len(),
{
    if pairs.len() == 0 {
        Ok(seq![])
    } else {
        match buffered_speed_frames(pairs.drop_last(), channels, crc) {
            Err(e) => Err(e),
            Ok(front) => match speed_frame(pairs.last().0, pairs.last().1, 0xD4, channels, crc) {
                Err(e) => Err(e),
                Ok(f) => Ok(front.push(f)),
            },
        }
    }
}

proof fn lemma_buffered_error_extends(pairs: Seq<(u8, i16)>, k: int, channels: u8, crc: bool)
    requires
        0 <= k <= pairs.len(),
        buffered_speed_frames(pairs.subrange(0, k), channels, crc) is Err,
    ensures
        buffered_speed_frames(pairs, channels, crc) == buffered_speed_frames(
            pairs.subrange(0, k),
            channels,
            crc,
        ),
    decreases pairs.len(),
{
    if pairs.len() > k {
        assert(pairs.drop_last().subrange(0, k) =~= pairs.subrange(0, k));
        lemma_buffered_error_extends(pairs.drop_last(), k, channels, crc);
    } else {
        assert(pairs.subrange(0, k) =~= pairs);
    }
}

/// The state of the protocol with one controller.
pub struct Session {
    controller_type: ControllerType,
    options: ProtocolOptions,
}

impl Session {
    /// The controller model, fixed when the session is made.
    pub closed spec fn spec_controller(&self) -> ControllerType {
        self.controller_type
    }

    /// The protocol options currently in force.
    pub closed spec fn spec_options(&self) -> ProtocolOptions {
        self.options
    }

    /// The number of motor channels of the controller.
    pub open spec fn spec_channels(&self) -> u8 {
        channels_of(self.spec_controller())
    }

    /// Whether frames that go out carry a checksum.
    pub open spec fn spec_cmd_crc(&self) -> bool {
        self.spec_options().crc_for_commands
    }

    /// Whether frames that come back carry a checksum.
    pub open spec fn spec_res_crc(&self) -> bool {
        self.spec_options().crc_for_responses
    }

    /// A session for a controller of type `controller_type`, with checksums both ways and
    /// general-call addressing enabled. The frame of `protocol_options_frame` is the first to
    /// send.
    pub fn new(controller_type: ControllerType) -> (s: Session)
        ensures
            s.spec_controller() == controller_type,
            s.spec_options() == (ProtocolOptions {
                crc_for_commands: true,
                crc_for_responses: true,
                i2c_general_call: true,
            }),
    {
        Session {
            controller_type,
            options: ProtocolOptions {
                crc_for_commands: true,
                crc_for_responses: true,
                i2c_general_call: true,
            },
        }
    }

    pub fn controller_type(&self) -> (r: ControllerType)
        ensures
            r == self.spec_controller(),
    {
        self.controller_type
    }

    pub fn options(&self) -> (r: ProtocolOptions)
        ensures
            r == self.spec_options(),
    {
        self.options
    }

    /// The frame that carries `cmd`, checksummed when the session's options ask for it.
    pub fn write_frame<C: Command>(&self, cmd: &C) -> (r: Result<Vec<u8>, Error>)
        requires
            cmd.encodable(),
        ensures
            match cmd.spec_body() {
                Ok(body) => r is Ok && r->Ok_0@ == frame(cmd.spec_code(), body, self.spec_cmd_crc()),
                Err(e) => r == Err::<Vec<u8>, Error>(Error::Command(e)),
            },
    {
        match encode_command(cmd, self.options.crc_for_commands) {
            Ok(data) => Ok(data),
            Err(e) => Err(Error::Command(e)),
        }
    }

    /// The number of bytes to read back for the response to `cmd`: its payload, and a checksum
    /// byte when responses carry one.
    pub fn response_len<C: Command>(&self, cmd: &C) -> (r: usize)
        requires
            cmd.spec_response_bytes() < usize::MAX,
        ensures
            r == cmd.spec_response_bytes() + if self.spec_res_crc() {
                1int
            } else {
                0int
            },
    {
        let len = cmd.expected_response_bytes();
        if self.options.crc_for_responses {
            len + 1
        } else {
            len
        }
    }

    /// Checks and parses the bytes read back for the response to a command of type `C`.
    pub fn read_response<C: Command>(&self, data: Vec<u8>) -> (r: Result<C::Response, Error>)
        ensures
            match unframe(data@, self.spec_res_crc()) {
                Ok(payload) => exists|p: Result<C::Response, CommandsError>|
                    #![auto]
                    C::Response::parses_to(payload, p) && r == lift(p),
                Err(e) => r == Err::<C::Response, Error>(Error::Command(e)),
            },
    {
        let decoded = decode_response::<C>(data, self.options.crc_for_responses);
        let r = match decoded {
            Ok(v) => Ok(v),
            Err(e) => Err(Error::Command(e)),
        };
        assert(r == lift(decoded));
        r
    }

    /// The frame that sends the session's protocol options to the device.
    pub fn protocol_options_frame(&self) -> (r: Vec<u8>)
        ensures
            r@ == options_frame(self.spec_options()),
    {
        let cmd = SetProtocolOptions {
            crc_for_commands: self.options.crc_for_commands,
            crc_for_responses: self.options.crc_for_responses,
            i2c_general_call: self.options.i2c_general_call,
        };
        match encode_command(&cmd, self.options.crc_for_commands) {
            Ok(data) => data,
            Err(_) => Vec::new(),
        }
    }

    /// Turns on checksums both ways; the frame returned tells the device.
    pub fn enable_crc(&mut self) -> (r: Vec<u8>)
        ensures
            final(self).spec_controller() == old(self).spec_controller(),
            final(self).spec_options() == (ProtocolOptions {
                crc_for_commands: true,
                crc_for_responses: true,
                ..old(self).spec_options()
            }),
            r@ == options_frame(final(self).spec_options()),
    {
        self.options.crc_for_commands = true;
        self.options.crc_for_responses = true;
        self.protocol_options_frame()
    }

    /// Turns off checksums both ways; the frame returned tells the device.
    pub fn disable_crc(&mut self) -> (r: Vec<u8>)
        ensures
            final(self).spec_controller() == old(self).spec_controller(),
            final(self).spec_options() == (ProtocolOptions {
                crc_for_commands: false,
                crc_for_responses: false,
                ..old(self).spec_options()
            }),
            r@ == options_frame(final(self).spec_options()),
    {
        self.options.crc_for_commands = false;
        self.options.crc_for_responses = false;
        self.protocol_options_frame()
    }

    /// The two frames that reinitialise the device, in order: the reinitialise command, then
    /// the protocol options, which the device forgets. A full reset sends the same two frames
    /// and waits `RESET_SETTLE_MILLIS` between them.
    pub fn reinitialise_frames(&self) -> (r: Vec<Vec<u8>>)
        ensures
            r@.len() == 2,
            r@[0]@ == frame(0x96, seq![], self.spec_cmd_crc()),
            r@[1]@ == options_frame(self.spec_options()),
    {
        let reinit = match encode_command(&Reinitialise, self.options.crc_for_commands) {
            Ok(data) => data,
            Err(_) => Vec::new(),
        };
        let mut frames: Vec<Vec<u8>> = Vec::new();
        frames.push(reinit);
        frames.push(self.protocol_options_frame());
        frames
    }

    /// The command that sets the speed of motor `motor_idx`, counted from zero, to `speed`;
    /// on the wire motors are counted from one.
    pub fn speed_command(&self, motor_idx: u8, speed: i16, mode: SpeedMode) -> (r: Result<
        SetSpeed,
        Error,
    >)
        ensures
            motor_idx >= self.spec_channels() ==> r == Err::<SetSpeed, Error>(
                Error::InvalidMotor { provided: motor_idx, num_motors: self.spec_channels() },
            ),
            motor_idx < self.spec_channels() ==> r == Ok::<SetSpeed, Error>(
                SetSpeed { mode, speed, motor: (motor_idx + 1) as u8 },
            ),
    {
        let num_motors = self.controller_type.motor_channels();
        if motor_idx >= num_motors {
            Err(Error::InvalidMotor { provided: motor_idx, num_motors })
        } else {
            Ok(SetSpeed { mode, speed, motor: motor_idx + 1 })
        }
    }

    /// The frame that sets the speed of motor `motor_idx` at once.
    pub fn set_speed(&self, motor_idx: u8, speed: i16) -> (r: Result<Vec<u8>, Error>)
        ensures
            match speed_frame(motor_idx, speed, 0xD1, self.spec_channels(), self.spec_cmd_crc()) {
                Ok(f) => r is Ok && r->Ok_0@ == f,
                Err(e) => r == Err::<Vec<u8>, Error>(e),
            },
    {
        let cmd = self.speed_command(motor_idx, speed, SpeedMode::Normal)?;
        self.write_frame(&cmd)
    }

    /// The frame that sets the speeds of all motors at once, one speed per motor in order.
    pub fn set_all_speeds(&self, speeds: Vec<i16>) -> (r: Result<Vec<u8>, Error>)
        ensures
            speeds@.len() != self.spec_channels() ==> r == Err::<Vec<u8>, Error>(
                Error::IncorrectNumberSpeeds {
                    provided: speeds@.len() as usize,
                    actual: self.spec_channels(),
                },
            ),
            speeds@.len() == self.spec_channels() ==> match speeds_body(speeds@) {
                Ok(body) => r is Ok && r->Ok_0@ == frame(0xE1, body, self.spec_cmd_crc()),
                Err(e) => r == Err::<Vec<u8>, Error>(Error::Command(e)),
            },
    {
        let num_motors = self.controller_type.motor_channels();
        if speeds.len() != num_motors as usize {
            return Err(Error::IncorrectNumberSpeeds { provided: speeds.len(), actual: num_motors });
        }
        let cmd = SetAllSpeeds { mode: SpeedMode::Normal, speeds };
        self.write_frame(&cmd)
    }

    /// The frames that set several motors together: one that buffers each pair's speed, in
    /// order, then one that applies the buffered speeds. Nothing is returned unless every pair
    /// is valid.
    pub fn set_multi_speed(&self, speeds: &[(u8, i16)]) -> (r: Result<Vec<Vec<u8>>, Error>)
        ensures
            match buffered_speed_frames(speeds@, self.spec_channels(), self.spec_cmd_crc()) {
                Ok(fs) => r is Ok && r->Ok_0@.len() == fs.len() + 1 && (forall|i: int|
                    0 <= i < fs.len() ==> #[trigger] r->Ok_0@[i]@ == fs[i]) && r->Ok_0@[fs.len() as int]@
                    == frame(0xF0, seq![], self.spec_cmd_crc()),
                Err(e) => r == Err::<Vec<Vec<u8>>, Error>(e),
            },
    {
        let ghost channels = self.spec_channels();
        let ghost crc = self.spec_cmd_crc();
        let ghost mut fs: Seq<Seq<u8>> = seq![];
        let mut frames: Vec<Vec<u8>> = Vec::new();
        let mut i: usize = 0;
        assert(speeds@.subrange(0, 0) =~= seq![]);
        while i < speeds.len()
            invariant
                i <= speeds@.len(),
                channels == self.spec_channels(),
                crc == self.spec_cmd_crc(),
                buffered_speed_frames(speeds@.subrange(0, i as int), channels, crc) == Ok::<
                    Seq<Seq<u8>>,
                    Error,
                >(fs),
                fs.len() == i,
                frames@.len() == i,
                forall|j: int| 0 <= j < i ==> #[trigger] frames@[j]@ == fs[j],
            decreases speeds@.len() - i,
        {
            let (motor_idx, speed) = speeds[i];
            let ghost prefix = speeds@.subrange(0, i as int);
            let ghost next = speeds@.subrange(0, i + 1);
            assert(next.drop_last() =~= prefix);
            assert(next.last() == (motor_idx, speed));
            let step = match self.speed_command(motor_idx, speed, SpeedMode::Buffered) {
                Ok(cmd) => self.write_frame(&cmd),
                Err(e) => Err(e),
            };
            match step {
                Ok(f) => {
                    proof {
                        fs = fs.push(f@);
                    }
                    frames.push(f);
                },
                Err(e) => {
                    proof {
                        lemma_buffered_error_extends(speeds@, i + 1, channels, crc);
                    }
                    return Err(e);
                },
            }
            i += 1;
        }
        assert(speeds@.subrange(0, i as int) =~= speeds@);
        let commit = SetAllSpeedsUsingBuffers { mode: SpeedModeNoBuffer::Normal };
        match self.write_frame(&commit) {
            Ok(f) => {
                frames.push(f);
            },
            Err(e) => {
                return Err(e);
            },
        }
        Ok(frames)
    }

    /// The frame that clears the latched status flags in `flags`.
    pub fn clear_latched_status_flags(&self, flags: ClearLatchedStatusFlags) -> (r: Result<
        Vec<u8>,
        Error,
    >)
        ensures
            flags.flags > 0x3FF ==> r == Err::<Vec<u8>, Error>(
                Error::Command(invalid_value("flags", 0, 0x3FF, flags.flags as i32)),
            ),
            flags.flags <= 0x3FF ==> r is Ok && r->Ok_0@ == frame(
                0xA9,
                split14(flags.flags),
                self.spec_cmd_crc(),
            ),
    {
        self.write_frame(&flags)
    }

    /// The frame that asks for the firmware version.
    pub fn firmware_version_frame(&self) -> (r: Vec<u8>)
        ensures
            r@ == frame(0x87, seq![], self.spec_cmd_crc()),
    {
        match encode_command(&GetFirmwareVersion, self.options.crc_for_commands) {
            Ok(data) => data,
            Err(_) => Vec::new(),
        }
    }

    /// The number of bytes to read back after asking for the firmware version.
    pub fn firmware_version_response_len(&self) -> (r: usize)
        ensures
            r == if self.spec_res_crc() {
                5usize
            } else {
                4usize
            },
    {
        self.response_len(&GetFirmwareVersion)
    }

    /// The firmware version in the bytes read back after asking for it.
    pub fn firmware_version_from(&self, data: Vec<u8>) -> (r: Result<FirmwareVersion, Error>)
        ensures
            r == match unframe(data@, self.spec_res_crc()) {
                Ok(payload) => lift(firmware_version_of(payload)),
                Err(e) => Err(Error::Command(e)),
            },
    {
        self.read_response::<GetFirmwareVersion>(data)
    }
}

} // verus!

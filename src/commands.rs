//! The command and response families of the wire protocol, and the frame codec that puts an
//! opcode, a body and an optional checksum together.

use vstd::prelude::*;
use crate::checksum::{crc_of, get_crc};

verus! {

/// Errors relating to the encoding of commands and decoding of responses.
#[derive(Debug, PartialEq, Eq)]
#[allow(inconsistent_fields)]
pub enum Error {
    /// A value provided is outside the inclusive range `[min, max]` that the command allows.
    InvalidValue { min: i32, max: i32, value: i32, field: &'static str },
    /// The response received has an unexpected length.
    InvalidResponseLength { expected: usize, actual: usize },
    /// The checksum trailing a response does not match its bytes.
    InvalidResponseCrc { expected: u8, actual: u8 },
}

/// The error for `field` holding `value` outside `[min, max]`.
pub open spec fn invalid_value(field: &'static str, min: i32, max: i32, value: i32) -> Error {
    Error::InvalidValue { min, max, value, field }
}

/// `Ok(())` when `value` lies in `[min, max]`, else the matching range error.
pub open spec fn range_check(field: &'static str, min: i32, max: i32, value: i32) -> Result<(), Error> {
    if value < min || value > max {
        Err(invalid_value(field, min, max, value))
    } else {
        Ok(())
    }
}

fn check_value(field: &'static str, min: i32, max: i32, value: i32) -> (r: Result<(), Error>)
    ensures
        r == range_check(field, min, max, value),
{
    if value < min || value > max {
        Err(Error::InvalidValue { min, max, value, field })
    } else {
        Ok(())
    }
}

/// The low seven bits of a 14-bit field, sent first.
pub open spec fn low7(v: u16) -> u8 {
    (v % 128) as u8
}

/// Bits 7 to 13 of a 14-bit field, sent second.
pub open spec fn high7(v: u16) -> u8 {
    ((v / 128) % 128) as u8
}

/// The two wire bytes of a 14-bit field.
pub open spec fn split14(v: u16) -> Seq<u8> {
    seq![low7(v), high7(v)]
}

fn split_14bit(v: u16) -> (r: (u8, u8))
    ensures
        r.0 == low7(v),
        r.1 == high7(v),
{
    assert(v & 0x7F == v % 128) by (bit_vector);
    assert((v >> 7) & 0x7F == (v / 128) % 128) by (bit_vector);
    ((v & 0x7F) as u8, ((v >> 7) & 0x7F) as u8)
}

/// Splitting a 14-bit value into its two wire bytes loses nothing: `low | (high << 7)` is the
/// value again.
pub proof fn lemma_split14_reassembles(v: u16)
    requires
        v <= 0x3FFF,
    ensures
        (low7(v) as u16) | ((high7(v) as u16) << 7) == v,
{
    assert(((v % 128) as u8 as u16) | ((((v / 128) % 128) as u8 as u16) << 7) == v)
        by (bit_vector)
        requires
            v <= 0x3FFF,
    ;
}

/// A signed speed as its 16-bit two's-complement pattern.
pub open spec fn twos_complement(s: i16) -> u16 {
    s as u16
}

/// Each byte of `s` with its low seven bits flipped.
pub open spec fn inverted(s: Seq<u8>) -> Seq<u8> {
    s.map_values(|b: u8| b ^ 0x7F)
}

/// Appends to `data` the bytes `data[from..to]`, each XORed with 0x7F, so that the receiver can
/// check them against the originals.
pub fn write_inverted_bytes(data: &mut Vec<u8>, from: usize, to: usize)
    requires
        from <= to <= old(data)@.len(),
    ensures
        final(data)@ == old(data)@ + inverted(old(data)@.subrange(from as int, to as int)),
{
    let ghost orig = data@;
    let mut i: usize = from;
    while i < to
        invariant
            from <= i <= to,
            to <= orig.len(),
            data@ == orig + inverted(orig.subrange(from as int, i as int)),
        decreases to - i,
    {
        let b = data[i] ^ 0x7F;
        data.push(b);
        assert(inverted(orig.subrange(from as int, i + 1)) =~= inverted(
            orig.subrange(from as int, i as int),
        ).push(b));
        i += 1;
    }
}

/// A frame as it goes on the wire: the opcode, the body, and, when enabled, the checksum of
/// both as the final byte.
pub open spec fn frame(code: u8, body: Seq<u8>, with_crc: bool) -> Seq<u8> {
    let m = seq![code] + body;
    if with_crc {
        m.push(crc_of(m))
    } else {
        m
    }
}

/// What is left of a received frame once its checksum, when enabled, is taken off and checked.
pub open spec fn unframe(data: Seq<u8>, with_crc: bool) -> Result<Seq<u8>, Error> {
    if !with_crc {
        Ok(data)
    } else if data.len() == 0 {
        Err(Error::InvalidResponseLength { expected: 1, actual: 0 })
    } else if crc_of(data.drop_last()) != data.last() {
        Err(Error::InvalidResponseCrc { expected: crc_of(data.drop_last()), actual: data.last() })
    } else {
        Ok(data.drop_last())
    }
}

/// A frame built with a checksum passes the check on the way back: taking the checksum off
/// `frame(code, body, true)` gives back the opcode and the body unchanged.
pub proof fn lemma_framed_checks(code: u8, body: Seq<u8>)
    ensures
        unframe(frame(code, body, true), true) == Ok::<Seq<u8>, Error>(seq![code] + body),
{
    let m = seq![code] + body;
    assert(m.push(crc_of(m)).drop_last() =~= m);
}

/// A unique command that can be sent to a Motoron controller: its opcode, the length and
/// contents of its body, and the length of the response it asks for.
pub trait Command {
    type Response: Response;

    /// The opcode of the command.
    spec fn spec_code(&self) -> u8;

    /// The number of body bytes, the opcode excluded.
    spec fn spec_num_bytes(&self) -> nat;

    /// The validated body, or the error of the first argument out of range.
    spec fn spec_body(&self) -> Result<Seq<u8>, Error>;

    /// The number of payload bytes of the response.
    spec fn spec_response_bytes(&self) -> nat;

    /// The command's sizes fit the machine and the wire.
    spec fn encodable(&self) -> bool;

    /// The opcode of this command.
    fn code(&self) -> (r: u8)
        ensures
            r == self.spec_code(),
    ;

    /// The number of bytes of the body over the wire, the opcode excluded.
    fn num_bytes(&self) -> (r: usize)
        requires
            self.encodable(),
        ensures
            r == self.spec_num_bytes(),
    ;

    /// Validates the arguments and appends the body to `bytes`. On a validation failure nothing
    /// is appended.
    fn encode_body(&self, bytes: &mut Vec<u8>) -> (r: Result<(), Error>)
        requires
            self.encodable(),
        ensures
            match r {
                Ok(()) => self.spec_body() is Ok && final(bytes)@ == old(bytes)@
                    + self.spec_body()->Ok_0 && self.spec_body()->Ok_0.len()
                    == self.spec_num_bytes(),
                Err(e) => self.spec_body() == Err::<Seq<u8>, Error>(e) && final(bytes)@ == old(
                    bytes,
                )@,
            },
    ;

    /// The number of payload bytes of the response to this command.
    fn expected_response_bytes(&self) -> (r: usize)
        ensures
            r == self.spec_response_bytes(),
    ;
}

/// A response that can be parsed from the payload of a received frame.
pub trait Response: Sized {
    /// `r` is what parsing `data` gives.
    spec fn parses_to(data: Seq<u8>, r: Result<Self, Error>) -> bool;

    fn parse(data: Vec<u8>) -> (r: Result<Self, Error>)
        ensures
            Self::parses_to(data@, r),
    ;
}

/// The error for a payload of `actual` bytes where `expected` were due.
pub open spec fn length_error(expected: usize, actual: nat) -> Error {
    Error::InvalidResponseLength { expected, actual: actual as usize }
}

impl Response for () {
    open spec fn parses_to(data: Seq<u8>, r: Result<(), Error>) -> bool {
        r == if data.len() == 0 {
            Ok(())
        } else {
            Err(length_error(0, data.len()))
        }
    }

    fn parse(data: Vec<u8>) -> (r: Result<(), Error>) {
        if data.len() != 0 {
            Err(Error::InvalidResponseLength { expected: 0, actual: data.len() })
        } else {
            Ok(())
        }
    }
}

impl Response for Vec<u8> {
    open spec fn parses_to(data: Seq<u8>, r: Result<Vec<u8>, Error>) -> bool {
        r is Ok && r->Ok_0@ == data
    }

    fn parse(data: Vec<u8>) -> (r: Result<Vec<u8>, Error>) {
        Ok(data)
    }
}

/// Encodes `cmd` into the frame that goes over the wire: its opcode, its body and, when
/// `with_crc` holds, the checksum of both.
pub fn encode_command<C: Command>(cmd: &C, with_crc: bool) -> (r: Result<Vec<u8>, Error>)
    requires
        cmd.encodable(),
    ensures
        match cmd.spec_body() {
            Ok(body) => r is Ok && r->Ok_0@ == frame(cmd.spec_code(), body, with_crc),
            Err(e) => r == Err::<Vec<u8>, Error>(e),
        },
{
    let mut response: Vec<u8> = Vec::new();
    response.push(cmd.code());
    match cmd.encode_body(&mut response) {
        Ok(()) => {},
        Err(e) => {
            return Err(e);
        },
    }
    if with_crc {
        let crc = get_crc(response.as_slice());
        response.push(crc);
    }
    Ok(response)
}

/// Checks the checksum of a received frame, when enabled, and parses what remains as the
/// response to a command of type `C`.
pub fn decode_response<C: Command>(data: Vec<u8>, with_crc: bool) -> (r: Result<
    C::Response,
    Error,
>)
    ensures
        match unframe(data@, with_crc) {
            Ok(payload) => C::Response::parses_to(payload, r),
            Err(e) => r == Err::<C::Response, Error>(e),
        },
{
    let mut data = data;
    if with_crc {
        let actual = match data.pop() {
            Some(b) => b,
            None => {
                return Err(Error::InvalidResponseLength { expected: 1, actual: 0 });
            },
        };
        let expected = get_crc(data.as_slice());
        if expected != actual {
            return Err(Error::InvalidResponseCrc { expected, actual });
        }
    }
    C::Response::parse(data)
}

pub struct GetFirmwareVersion;

impl Command for GetFirmwareVersion {
    type Response = FirmwareVersion;

    open spec fn spec_code(&self) -> u8 {
        0x87
    }

    open spec fn spec_num_bytes(&self) -> nat {
        0
    }

    open spec fn spec_body(&self) -> Result<Seq<u8>, Error> {
        Ok(seq![])
    }

    open spec fn spec_response_bytes(&self) -> nat {
        4
    }

    open spec fn encodable(&self) -> bool {
        true
    }

    fn code(&self) -> (r: u8) {
        0x87
    }

    fn num_bytes(&self) -> (r: usize) {
        0
    }

    fn encode_body(&self, bytes: &mut Vec<u8>) -> (r: Result<(), Error>) {
        assert(bytes@ =~= bytes@ + seq![]);
        Ok(())
    }

    fn expected_response_bytes(&self) -> (r: usize) {
        4
    }
}

/// The firmware version information provided by the chip.
#[derive(Debug, Clone, Copy, PartialEq, Eq, Hash, Structural)]
pub struct FirmwareVersion {
    /// The product ID of the controller.
    pub product_id: u16,
    pub minor_fw_version: u8,
    pub major_fw_version: u8,
}

/// The firmware version in a payload of exactly four bytes: the product ID little-endian,
/// then the minor and the major version.
pub open spec fn firmware_version_of(data: Seq<u8>) -> Result<FirmwareVersion, Error> {
    if data.len() != 4 {
        Err(length_error(4, data.len()))
    } else {
        Ok(
            FirmwareVersion {
                product_id: (data[0] as u16 + 256 * (data[1] as u16)) as u16,
                minor_fw_version: data[2],
                major_fw_version: data[3],
            },
        )
    }
}

impl Response for FirmwareVersion {
    open spec fn parses_to(data: Seq<u8>, r: Result<FirmwareVersion, Error>) -> bool {
        r == firmware_version_of(data)
    }

    fn parse(data: Vec<u8>) -> (r: Result<FirmwareVersion, Error>) {
        if data.len() != 4 {
            Err(Error::InvalidResponseLength { expected: 4, actual: data.len() })
        } else {
            let lo = data[0] as u16;
            let hi = data[1] as u16;
            assert(lo | (hi << 8) == lo + 256 * hi) by (bit_vector)
                requires
                    lo < 256,
                    hi < 256,
            ;
            Ok(
                FirmwareVersion {
                    product_id: lo | (hi << 8),
                    minor_fw_version: data[2],
                    major_fw_version: data[3],
                },
            )
        }
    }
}

/// The options byte of the protocol: bit 0 asks for checksums on commands, bit 1 on
/// responses, bit 2 enables general-call addressing.
pub open spec fn options_byte(crc_for_commands: bool, crc_for_responses: bool, i2c_general_call: bool) -> u8 {
    ((if crc_for_commands { 1u8 } else { 0u8 }) + (if crc_for_responses { 2u8 } else { 0u8 }) + (
    if i2c_general_call { 4u8 } else { 0u8 })) as u8
}

pub struct SetProtocolOptions {
    pub crc_for_commands: bool,
    pub crc_for_responses: bool,
    pub i2c_general_call: bool,
}

impl Command for SetProtocolOptions {
    type Response = ();

    open spec fn spec_code(&self) -> u8 {
        0x8B
    }

    open spec fn spec_num_bytes(&self) -> nat {
        2
    }

    open spec fn spec_body(&self) -> Result<Seq<u8>, Error> {
        let b = options_byte(self.crc_for_commands, self.crc_for_responses, self.i2c_general_call);
        Ok(seq![b, b ^ 0x7F])
    }

    open spec fn spec_response_bytes(&self) -> nat {
        0
    }

    open spec fn encodable(&self) -> bool {
        true
    }

    fn code(&self) -> (r: u8) {
        0x8B
    }

    fn num_bytes(&self) -> (r: usize) {
        2
    }

    fn encode_body(&self, bytes: &mut Vec<u8>) -> (r: Result<(), Error>) {
        let mut options: u8 = 0;
        if self.crc_for_commands {
            options += 1;
        }
        if self.crc_for_responses {
            options += 2;
        }
        if self.i2c_general_call {
            options += 4;
        }
        bytes.push(options);
        let end = bytes.len();
        write_inverted_bytes(bytes, end - 1, end);
        assert(bytes@ =~= old(bytes)@ + self.spec_body()->Ok_0);
        Ok(())
    }

    fn expected_response_bytes(&self) -> (r: usize) {
        0
    }
}

pub struct ReadEeprom {
    pub offset: u8,
    pub length: u8,
}

impl Command for ReadEeprom {
    type Response = Vec<u8>;

    open spec fn spec_code(&self) -> u8 {
        0x93
    }

    open spec fn spec_num_bytes(&self) -> nat {
        2
    }

    open spec fn spec_body(&self) -> Result<Seq<u8>, Error> {
        if self.offset > 0x7F {
            Err(invalid_value("offset", 0, 0x7F, self.offset as i32))
        } else if self.length < 1 || self.length > 32 {
            Err(invalid_value("length", 1, 32, self.length as i32))
        } else {
            Ok(seq![self.offset, self.length])
        }
    }

    open spec fn spec_response_bytes(&self) -> nat {
        self.length as nat
    }

    open spec fn encodable(&self) -> bool {
        true
    }

    fn code(&self) -> (r: u8) {
        0x93
    }

    fn num_bytes(&self) -> (r: usize) {
        2
    }

    fn encode_body(&self, bytes: &mut Vec<u8>) -> (r: Result<(), Error>) {
        check_value("offset", 0, 0x7F, self.offset as i32)?;
        check_value("length", 1, 32, self.length as i32)?;
        let mut body: Vec<u8> = vec![self.offset, self.length];
        assert(body@ =~= seq![self.offset, self.length]);
        bytes.append(&mut body);
        Ok(())
    }

    fn expected_response_bytes(&self) -> (r: usize) {
        self.length as usize
    }
}

pub struct WriteEeprom {
    pub offset: u8,
    pub value: u8,
}

impl Command for WriteEeprom {
    type Response = ();

    open spec fn spec_code(&self) -> u8 {
        0x95
    }

    open spec fn spec_num_bytes(&self) -> nat {
        6
    }

    open spec fn spec_body(&self) -> Result<Seq<u8>, Error> {
        if self.offset > 0x7F {
            Err(invalid_value("offset", 0, 0x7F, self.offset as i32))
        } else {
            let high: u8 = if self.value >= 128 {
                1
            } else {
                0
            };
            let raw = seq![self.offset, high, (self.value % 128) as u8];
            Ok(raw + inverted(raw))
        }
    }

    open spec fn spec_response_bytes(&self) -> nat {
        0
    }

    open spec fn encodable(&self) -> bool {
        true
    }

    fn code(&self) -> (r: u8) {
        0x95
    }

    fn num_bytes(&self) -> (r: usize) {
        6
    }

    fn encode_body(&self, bytes: &mut Vec<u8>) -> (r: Result<(), Error>) {
        check_value("offset", 0, 0x7F, self.offset as i32)?;
        let value = self.value;
        assert((value & 0x80 != 0) == (value >= 128)) by (bit_vector);
        assert(value & 0x7F == value % 128) by (bit_vector);
        let high: u8 = if (value & 0x80) != 0 { 1 } else { 0 };
        let mut raw: Vec<u8> = vec![self.offset, high, value & 0x7F];
        assert(raw@ =~= seq![self.offset, high, value & 0x7F]);
        bytes.append(&mut raw);
        let end = bytes.len();
        write_inverted_bytes(bytes, end - 3, end);
        assert(bytes@.subrange(end - 3, end as int) =~= seq![self.offset, high, value & 0x7F]);
        assert(bytes@ =~= old(bytes)@ + self.spec_body()->Ok_0);
        Ok(())
    }

    fn expected_response_bytes(&self) -> (r: usize) {
        0
    }
}

pub struct Reinitialise;

impl Command for Reinitialise {
    type Response = ();

    open spec fn spec_code(&self) -> u8 {
        0x96
    }

    open spec fn spec_num_bytes(&self) -> nat {
        0
    }

    open spec fn spec_body(&self) -> Result<Seq<u8>, Error> {
        Ok(seq![])
    }

    open spec fn spec_response_bytes(&self) -> nat {
        0
    }

    open spec fn encodable(&self) -> bool {
        true
    }

    fn code(&self) -> (r: u8) {
        0x96
    }

    fn num_bytes(&self) -> (r: usize) {
        0
    }

    fn encode_body(&self, bytes: &mut Vec<u8>) -> (r: Result<(), Error>) {
        assert(bytes@ =~= bytes@ + seq![]);
        Ok(())
    }

    fn expected_response_bytes(&self) -> (r: usize) {
        0
    }
}

pub struct Reset;

impl Command for Reset {
    type Response = ();

    open spec fn spec_code(&self) -> u8 {
        0x99
    }

    open spec fn spec_num_bytes(&self) -> nat {
        0
    }

    open spec fn spec_body(&self) -> Result<Seq<u8>, Error> {
        Ok(seq![])
    }

    open spec fn spec_response_bytes(&self) -> nat {
        0
    }

    open spec fn encodable(&self) -> bool {
        true
    }

    fn code(&self) -> (r: u8) {
        0x99
    }

    fn num_bytes(&self) -> (r: usize) {
        0
    }

    fn encode_body(&self, bytes: &mut Vec<u8>) -> (r: Result<(), Error>) {
        assert(bytes@ =~= bytes@ + seq![]);
        Ok(())
    }

    fn expected_response_bytes(&self) -> (r: usize) {
        0
    }
}

pub struct GetVariables {
    pub motor: u8,
    pub offset: u8,
    pub length: u8,
}

impl Command for GetVariables {
    type Response = Vec<u8>;

    open spec fn spec_code(&self) -> u8 {
        0x9A
    }

    open spec fn spec_num_bytes(&self) -> nat {
        3
    }

    open spec fn spec_body(&self) -> Result<Seq<u8>, Error> {
        if self.motor > 3 {
            Err(invalid_value("motor", 0, 3, self.motor as i32))
        } else if self.offset > 0x7F {
            Err(invalid_value("offset", 0, 0x7F, self.offset as i32))
        } else if self.length < 1 || self.length > 32 {
            Err(invalid_value("length", 1, 32, self.length as i32))
        } else {
            Ok(seq![self.motor, self.offset, self.length])
        }
    }

    open spec fn spec_response_bytes(&self) -> nat {
        self.length as nat
    }

    open spec fn encodable(&self) -> bool {
        true
    }

    fn code(&self) -> (r: u8) {
        0x9A
    }

    fn num_bytes(&self) -> (r: usize) {
        3
    }

    fn encode_body(&self, bytes: &mut Vec<u8>) -> (r: Result<(), Error>) {
        check_value("motor", 0, 3, self.motor as i32)?;
        check_value("offset", 0, 0x7F, self.offset as i32)?;
        check_value("length", 1, 32, self.length as i32)?;
        let mut body: Vec<u8> = vec![self.motor, self.offset, self.length];
        assert(body@ =~= seq![self.motor, self.offset, self.length]);
        bytes.append(&mut body);
        Ok(())
    }

    fn expected_response_bytes(&self) -> (r: usize) {
        self.length as usize
    }
}

pub struct SetVariable {
    pub motor: u8,
    pub offset: u8,
    pub value: u16,
}

impl Command for SetVariable {
    type Response = ();

    open spec fn spec_code(&self) -> u8 {
        0x9C
    }

    open spec fn spec_num_bytes(&self) -> nat {
        4
    }

    open spec fn spec_body(&self) -> Result<Seq<u8>, Error> {
        if self.motor > 3 {
            Err(invalid_value("motor", 0, 3, self.motor as i32))
        } else if self.offset > 0x7F {
            Err(invalid_value("offset", 0, 0x7F, self.offset as i32))
        } else if self.value > 0x3FFF {
            Err(invalid_value("value", 0, 0x3FFF, self.value as i32))
        } else {
            Ok(seq![self.motor, self.offset] + split14(self.value))
        }
    }

    open spec fn spec_response_bytes(&self) -> nat {
        0
    }

    open spec fn encodable(&self) -> bool {
        true
    }

    fn code(&self) -> (r: u8) {
        0x9C
    }

    fn num_bytes(&self) -> (r: usize) {
        4
    }

    fn encode_body(&self, bytes: &mut Vec<u8>) -> (r: Result<(), Error>) {
        check_value("motor", 0, 3, self.motor as i32)?;
        check_value("offset", 0, 0x7F, self.offset as i32)?;
        check_value("value", 0, 0x3FFF, self.value as i32)?;
        let (low, high) = split_14bit(self.value);
        let mut body: Vec<u8> = vec![self.motor, self.offset, low, high];
        assert(body@ =~= seq![self.motor, self.offset] + split14(self.value));
        bytes.append(&mut body);
        Ok(())
    }

    fn expected_response_bytes(&self) -> (r: usize) {
        0
    }
}

pub struct CoastNow;

impl Command for CoastNow {
    type Response = ();

    open spec fn spec_code(&self) -> u8 {
        0xA5
    }

    open spec fn spec_num_bytes(&self) -> nat {
        0
    }

    open spec fn spec_body(&self) -> Result<Seq<u8>, Error> {
        Ok(seq![])
    }

    open spec fn spec_response_bytes(&self) -> nat {
        0
    }

    open spec fn encodable(&self) -> bool {
        true
    }

    fn code(&self) -> (r: u8) {
        0xA5
    }

    fn num_bytes(&self) -> (r: usize) {
        0
    }

    fn encode_body(&self, bytes: &mut Vec<u8>) -> (r: Result<(), Error>) {
        assert(bytes@ =~= bytes@ + seq![]);
        Ok(())
    }

    fn expected_response_bytes(&self) -> (r: usize) {
        0
    }
}

pub struct ClearMotorFault {
    pub unconditional: bool,
}

impl Command for ClearMotorFault {
    type Response = ();

    open spec fn spec_code(&self) -> u8 {
        0xA6
    }

    open spec fn spec_num_bytes(&self) -> nat {
        1
    }

    open spec fn spec_body(&self) -> Result<Seq<u8>, Error> {
        Ok(seq![if self.unconditional { 1u8 } else { 0u8 }])
    }

    open spec fn spec_response_bytes(&self) -> nat {
        0
    }

    open spec fn encodable(&self) -> bool {
        true
    }

    fn code(&self) -> (r: u8) {
        0xA6
    }

    fn num_bytes(&self) -> (r: usize) {
        1
    }

    fn encode_body(&self, bytes: &mut Vec<u8>) -> (r: Result<(), Error>) {
        let flag: u8 = if self.unconditional { 1 } else { 0 };
        bytes.push(flag);
        assert(bytes@ =~= old(bytes)@ + seq![flag]);
        Ok(())
    }

    fn expected_response_bytes(&self) -> (r: usize) {
        0
    }
}

pub struct ClearLatchedStatusFlags {
    pub flags: u16,
}

impl Command for ClearLatchedStatusFlags {
    type Response = ();

    open spec fn spec_code(&self) -> u8 {
        0xA9
    }

    open spec fn spec_num_bytes(&self) -> nat {
        2
    }

    open spec fn spec_body(&self) -> Result<Seq<u8>, Error> {
        if self.flags > 0x3FF {
            Err(invalid_value("flags", 0, 0x3FF, self.flags as i32))
        } else {
            Ok(split14(self.flags))
        }
    }

    open spec fn spec_response_bytes(&self) -> nat {
        0
    }

    open spec fn encodable(&self) -> bool {
        true
    }

    fn code(&self) -> (r: u8) {
        0xA9
    }

    fn num_bytes(&self) -> (r: usize) {
        2
    }

    fn encode_body(&self, bytes: &mut Vec<u8>) -> (r: Result<(), Error>) {
        check_value("flags", 0, 0x3FF, self.flags as i32)?;
        let (low, high) = split_14bit(self.flags);
        let mut body: Vec<u8> = vec![low, high];
        assert(body@ =~= split14(self.flags));
        bytes.append(&mut body);
        Ok(())
    }

    fn expected_response_bytes(&self) -> (r: usize) {
        0
    }
}

pub struct SetLatchedStatusFlags {
    pub flags: u16,
}

impl Command for SetLatchedStatusFlags {
    type Response = ();

    open spec fn spec_code(&self) -> u8 {
        0xAC
    }

    open spec fn spec_num_bytes(&self) -> nat {
        2
    }

    open spec fn spec_body(&self) -> Result<Seq<u8>, Error> {
        if self.flags > 0x3FF {
            Err(invalid_value("flags", 0, 0x3FF, self.flags as i32))
        } else {
            Ok(split14(self.flags))
        }
    }

    open spec fn spec_response_bytes(&self) -> nat {
        0
    }

    open spec fn encodable(&self) -> bool {
        true
    }

    fn code(&self) -> (r: u8) {
        0xAC
    }

    fn num_bytes(&self) -> (r: usize) {
        2
    }

    fn encode_body(&self, bytes: &mut Vec<u8>) -> (r: Result<(), Error>) {
        check_value("flags", 0, 0x3FF, self.flags as i32)?;
        let (low, high) = split_14bit(self.flags);
        let mut body: Vec<u8> = vec![low, high];
        assert(body@ =~= split14(self.flags));
        bytes.append(&mut body);
        Ok(())
    }

    fn expected_response_bytes(&self) -> (r: usize) {
        0
    }
}

pub enum SpeedMode {
    Normal,
    Now,
    Buffered,
}

/// The wire bytes of a speed: its two's-complement pattern split into two 7-bit halves.
pub open spec fn speed_bytes(speed: i16) -> Seq<u8> {
    split14(twos_complement(speed))
}

fn split_speed(speed: i16) -> (r: (u8, u8))
    ensures
        seq![r.0, r.1] == speed_bytes(speed),
{
    split_14bit(speed as u16)
}

pub struct SetSpeed {
    pub mode: SpeedMode,
    pub motor: u8,
    pub speed: i16,
}

impl Command for SetSpeed {
    type Response = ();

    open spec fn spec_code(&self) -> u8 {
        match self.mode {
            SpeedMode::Normal => 0xD1,
            SpeedMode::Now => 0xD2,
            SpeedMode::Buffered => 0xD4,
        }
    }

    open spec fn spec_num_bytes(&self) -> nat {
        3
    }

    open spec fn spec_body(&self) -> Result<Seq<u8>, Error> {
        if self.motor > 3 {
            Err(invalid_value("motor", 0, 3, self.motor as i32))
        } else if self.speed < -800 || self.speed > 800 {
            Err(invalid_value("speed", -800i32, 800, self.speed as i32))
        } else {
            Ok(seq![self.motor] + speed_bytes(self.speed))
        }
    }

    open spec fn spec_response_bytes(&self) -> nat {
        0
    }

    open spec fn encodable(&self) -> bool {
        true
    }

    fn code(&self) -> (r: u8) {
        match self.mode {
            SpeedMode::Normal => 0xD1,
            SpeedMode::Now => 0xD2,
            SpeedMode::Buffered => 0xD4,
        }
    }

    fn num_bytes(&self) -> (r: usize) {
        3
    }

    fn encode_body(&self, bytes: &mut Vec<u8>) -> (r: Result<(), Error>) {
        check_value("motor", 0, 3, self.motor as i32)?;
        check_value("speed", -800, 800, self.speed as i32)?;
        let (low, high) = split_speed(self.speed);
        let mut body: Vec<u8> = vec![self.motor, low, high];
        assert(body@ =~= seq![self.motor] + speed_bytes(self.speed));
        bytes.append(&mut body);
        Ok(())
    }

    fn expected_response_bytes(&self) -> (r: usize) {
        0
    }
}

/// The body that sets every motor at once: two bytes per speed, in order, or the error for the
/// first speed outside `[-800, 800]`.
pub open spec fn speeds_body(speeds: Seq<i16>) -> Result<Seq<u8>, Error>
    decreases speeds.len(),
{
    if speeds.len() == 0 {
        Ok(seq![])
    } else {
        match speeds_body(speeds.drop_last()) {
            Err(e) => Err(e),
            Ok(front) => {
                let s = speeds.last();
                if s < -800 || s > 800 {
                    Err(invalid_value("speeds", -800i32, 800, s as i32))
                } else {
                    Ok(front + speed_bytes(s))
                }
            },
        }
    }
}

proof fn lemma_speeds_error_extends(speeds: Seq<i16>, k: int)
    requires
        0 <= k <= speeds.len(),
        speeds_body(speeds.subrange(0, k)) is Err,
    ensures
        speeds_body(speeds) == speeds_body(speeds.subrange(0, k)),
    decreases speeds.len(),
{
    if speeds.len() > k {
        assert(speeds.drop_last().subrange(0, k) =~= speeds.subrange(0, k));
        lemma_speeds_error_extends(speeds.drop_last(), k);
    } else {
        assert(speeds.subrange(0, k) =~= speeds);
    }
}

pub struct SetAllSpeeds {
    pub mode: SpeedMode,
    pub speeds: Vec<i16>,
}

impl Command for SetAllSpeeds {
    type Response = ();

    open spec fn spec_code(&self) -> u8 {
        match self.mode {
            SpeedMode::Normal => 0xE1,
            SpeedMode::Now => 0xE2,
            SpeedMode::Buffered => 0xE4,
        }
    }

    open spec fn spec_num_bytes(&self) -> nat {
        2 * self.speeds@.len()
    }

    open spec fn spec_body(&self) -> Result<Seq<u8>, Error> {
        speeds_body(self.speeds@)
    }

    open spec fn spec_response_bytes(&self) -> nat {
        0
    }

    open spec fn encodable(&self) -> bool {
        2 * self.speeds@.len() <= usize::MAX
    }

    fn code(&self) -> (r: u8) {
        match self.mode {
            SpeedMode::Normal => 0xE1,
            SpeedMode::Now => 0xE2,
            SpeedMode::Buffered => 0xE4,
        }
    }

    fn num_bytes(&self) -> (r: usize) {
        self.speeds.len() * 2
    }

    fn encode_body(&self, bytes: &mut Vec<u8>) -> (r: Result<(), Error>) {
        let mut body: Vec<u8> = Vec::new();
        let mut i: usize = 0;
        while i < self.speeds.len()
            invariant
                i <= self.speeds@.len(),
                speeds_body(self.speeds@.subrange(0, i as int)) == Ok::<Seq<u8>, Error>(body@),
                body@.len() == 2 * i,
            decreases self.speeds@.len() - i,
        {
            let speed = self.speeds[i];
            assert(self.speeds@.subrange(0, i + 1).drop_last() =~= self.speeds@.subrange(
                0,
                i as int,
            ));
            if speed < -800 || speed > 800 {
                proof {
                    lemma_speeds_error_extends(self.speeds@, i + 1);
                }
                return Err(
                    Error::InvalidValue { min: -800, max: 800, value: speed as i32, field: "speeds" },
                );
            }
            let (low, high) = split_speed(speed);
            body.push(low);
            body.push(high);
            assert(body@ =~= speeds_body(self.speeds@.subrange(0, i as int))->Ok_0 + speed_bytes(
                speed,
            ));
            i += 1;
        }
        assert(self.speeds@.subrange(0, i as int) =~= self.speeds@);
        bytes.append(&mut body);
        Ok(())
    }

    fn expected_response_bytes(&self) -> (r: usize) {
        0
    }
}

pub enum SpeedModeNoBuffer {
    Normal,
    Now,
}

pub struct SetAllSpeedsUsingBuffers {
    pub mode: SpeedModeNoBuffer,
}

impl Command for SetAllSpeedsUsingBuffers {
    type Response = ();

    open spec fn spec_code(&self) -> u8 {
        match self.mode {
            SpeedModeNoBuffer::Normal => 0xF0,
            SpeedModeNoBuffer::Now => 0xF3,
        }
    }

    open spec fn spec_num_bytes(&self) -> nat {
        0
    }

    open spec fn spec_body(&self) -> Result<Seq<u8>, Error> {
        Ok(seq![])
    }

    open spec fn spec_response_bytes(&self) -> nat {
        0
    }

    open spec fn encodable(&self) -> bool {
        true
    }

    fn code(&self) -> (r: u8) {
        match self.mode {
            SpeedModeNoBuffer::Normal => 0xF0,
            SpeedModeNoBuffer::Now => 0xF3,
        }
    }

    fn num_bytes(&self) -> (r: usize) {
        0
    }

    fn encode_body(&self, bytes: &mut Vec<u8>) -> (r: Result<(), Error>) {
        assert(bytes@ =~= bytes@ + seq![]);
        Ok(())
    }

    fn expected_response_bytes(&self) -> (r: usize) {
        0
    }
}

pub enum BrakingMode {
    Normal,
    Now,
}

pub struct SetBraking {
    pub mode: BrakingMode,
    pub motor: u8,
    pub ammount: u16,
}

impl Command for SetBraking {
    type Response = ();

    open spec fn spec_code(&self) -> u8 {
        match self.mode {
            BrakingMode::Normal => 0xB1,
            BrakingMode::Now => 0xB2,
        }
    }

    open spec fn spec_num_bytes(&self) -> nat {
        3
    }

    open spec fn spec_body(&self) -> Result<Seq<u8>, Error> {
        if self.motor < 1 || self.motor > 3 {
            Err(invalid_value("motor", 1, 3, self.motor as i32))
        } else if self.ammount > 800 {
            Err(invalid_value("ammount", 0, 800, self.ammount as i32))
        } else {
            Ok(seq![self.motor] + split14(self.ammount))
        }
    }

    open spec fn spec_response_bytes(&self) -> nat {
        0
    }

    open spec fn encodable(&self) -> bool {
        true
    }

    fn code(&self) -> (r: u8) {
        match self.mode {
            BrakingMode::Normal => 0xB1,
            BrakingMode::Now => 0xB2,
        }
    }

    fn num_bytes(&self) -> (r: usize) {
        3
    }

    fn encode_body(&self, bytes: &mut Vec<u8>) -> (r: Result<(), Error>) {
        check_value("motor", 1, 3, self.motor as i32)?;
        check_value("ammount", 0, 800, self.ammount as i32)?;
        let (low, high) = split_14bit(self.ammount);
        let mut body: Vec<u8> = vec![self.motor, low, high];
        assert(body@ =~= seq![self.motor] + split14(self.ammount));
        bytes.append(&mut body);
        Ok(())
    }

    fn expected_response_bytes(&self) -> (r: usize) {
        0
    }
}

pub struct ResetCommandTimeout;

impl Command for ResetCommandTimeout {
    type Response = ();

    open spec fn spec_code(&self) -> u8 {
        0xF5
    }

    open spec fn spec_num_bytes(&self) -> nat {
        0
    }

    open spec fn spec_body(&self) -> Result<Seq<u8>, Error> {
        Ok(seq![])
    }

    open spec fn spec_response_bytes(&self) -> nat {
        0
    }

    open spec fn encodable(&self) -> bool {
        true
    }

    fn code(&self) -> (r: u8) {
        0xF5
    }

    fn num_bytes(&self) -> (r: usize) {
        0
    }

    fn encode_body(&self, bytes: &mut Vec<u8>) -> (r: Result<(), Error>) {
        assert(bytes@ =~= bytes@ + seq![]);
        Ok(())
    }

    fn expected_response_bytes(&self) -> (r: usize) {
        0
    }
}

pub struct MultiDeviceErrorCheck {
    pub starting_device_number: u8,
    pub device_count: u8,
}

impl Command for MultiDeviceErrorCheck {
    type Response = MultiDeviceErrorCheckReponse;

    open spec fn spec_code(&self) -> u8 {
        0xF5
    }

    open spec fn spec_num_bytes(&self) -> nat {
        2
    }

    open spec fn spec_body(&self) -> Result<Seq<u8>, Error> {
        if self.starting_device_number > 0x7F {
            Err(invalid_value("starting_device_number", 0, 0x7F, self.starting_device_number as i32))
        } else if self.device_count > 0x7F {
            Err(invalid_value("device_count", 0, 0x7F, self.device_count as i32))
        } else {
            Ok(seq![self.starting_device_number, self.device_count])
        }
    }

    open spec fn spec_response_bytes(&self) -> nat {
        1
    }

    open spec fn encodable(&self) -> bool {
        true
    }

    fn code(&self) -> (r: u8) {
        0xF5
    }

    fn num_bytes(&self) -> (r: usize) {
        2
    }

    fn encode_body(&self, bytes: &mut Vec<u8>) -> (r: Result<(), Error>) {
        check_value("starting_device_number", 0, 0x7F, self.starting_device_number as i32)?;
        check_value("device_count", 0, 0x7F, self.device_count as i32)?;
        let mut body: Vec<u8> = vec![self.starting_device_number, self.device_count];
        assert(body@ =~= seq![self.starting_device_number, self.device_count]);
        bytes.append(&mut body);
        Ok(())
    }

    fn expected_response_bytes(&self) -> (r: usize) {
        1
    }
}

/// The answer of the devices to a multi-device error check.
#[derive(Debug, Clone, Copy, PartialEq, Eq, Hash, Structural)]
pub enum MultiDeviceErrorCheckReponse {
    /// The byte 0x00: a device reports an error.
    ErrorActive,
    /// The byte 0x3C: no device reports an error.
    AllOk,
    /// Any other byte, kept as it came.
    Unknown(u8),
}

/// The result of a one-byte error-check payload; any other length is an error.
pub open spec fn error_check_of(data: Seq<u8>) -> Result<MultiDeviceErrorCheckReponse, Error> {
    if data.len() != 1 {
        Err(length_error(1, data.len()))
    } else if data[0] == 0x00 {
        Ok(MultiDeviceErrorCheckReponse::ErrorActive)
    } else if data[0] == 0x3C {
        Ok(MultiDeviceErrorCheckReponse::AllOk)
    } else {
        Ok(MultiDeviceErrorCheckReponse::Unknown(data[0]))
    }
}

impl Response for MultiDeviceErrorCheckReponse {
    open spec fn parses_to(data: Seq<u8>, r: Result<MultiDeviceErrorCheckReponse, Error>) -> bool {
        r == error_check_of(data)
    }

    fn parse(data: Vec<u8>) -> (r: Result<MultiDeviceErrorCheckReponse, Error>) {
        if data.len() != 1 {
            Err(Error::InvalidResponseLength { expected: 1, actual: data.len() })
        } else {
            Ok(
                match data[0] {
                    0x00 => MultiDeviceErrorCheckReponse::ErrorActive,
                    0x3C => MultiDeviceErrorCheckReponse::AllOk,
                    v => MultiDeviceErrorCheckReponse::Unknown(v),
                },
            )
        }
    }
}

/// One command written to a contiguous range of chained devices in one frame. The body is the
/// range, the inner body's length and opcode, then the inner body. Only a single inner command
/// is carried; whether any firmware also takes a list of commands here is left open.
pub struct MultiDeviceWrite<C: Command> {
    pub starting_device_number: u8,
    pub device_count: u8,
    pub command: C,
}

impl<C: Command> Command for MultiDeviceWrite<C> {
    type Response = ();

    open spec fn spec_code(&self) -> u8 {
        0xF9
    }

    open spec fn spec_num_bytes(&self) -> nat {
        4 + self.command.spec_num_bytes()
    }

    open spec fn spec_body(&self) -> Result<Seq<u8>, Error> {
        if self.starting_device_number > 0x7F {
            Err(invalid_value("starting_device_number", 0, 0x7F, self.starting_device_number as i32))
        } else if self.device_count > 0x7F {
            Err(invalid_value("device_count", 0, 0x7F, self.device_count as i32))
        } else {
            match self.command.spec_body() {
                Err(e) => Err(e),
                Ok(inner) => Ok(
                    seq![
                        self.starting_device_number,
                        self.device_count,
                        self.command.spec_num_bytes() as u8,
                        self.command.spec_code(),
                    ] + inner,
                ),
            }
        }
    }

    open spec fn spec_response_bytes(&self) -> nat {
        0
    }

    /// The inner body's length goes on the wire as one 7-bit byte.
    open spec fn encodable(&self) -> bool {
        self.command.encodable() && self.command.spec_num_bytes() <= 0x7F
    }

    fn code(&self) -> (r: u8) {
        0xF9
    }

    fn num_bytes(&self) -> (r: usize) {
        4 + self.command.num_bytes()
    }

    fn encode_body(&self, bytes: &mut Vec<u8>) -> (r: Result<(), Error>) {
        check_value("starting_device_number", 0, 0x7F, self.starting_device_number as i32)?;
        check_value("device_count", 0, 0x7F, self.device_count as i32)?;
        let command_length = self.command.num_bytes();
        let code = self.command.code();
        let mut inner: Vec<u8> = Vec::new();
        self.command.encode_body(&mut inner)?;
        let mut body: Vec<u8> = vec![
            self.starting_device_number,
            self.device_count,
            command_length as u8,
            code,
        ];
        body.append(&mut inner);
        assert(body@ =~= self.spec_body()->Ok_0);
        bytes.append(&mut body);
        Ok(())
    }

    fn expected_response_bytes(&self) -> (r: usize) {
        0
    }
}

} // verus!

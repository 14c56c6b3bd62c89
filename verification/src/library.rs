//! Device session and GPIO control logic.
//!
//! The vendor's foreign entry points are performed outside this crate; every
//! function here is a pure function of their raw results (signed status
//! codes, 32-bit registers, configuration bytes). The embedding program makes
//! a foreign call, hands the raw outcome to the matching function of this
//! module, and — for the read-modify-write sequences — writes back exactly the
//! register this module planned, or stops on the error it returned.
//!
//! Direction-bit convention, chosen once and used throughout: a set bit in
//! the direction register means [`GPIODirection::Out`], a clear bit means
//! [`GPIODirection::In`].
//!
//! The read-modify-write sequences operate on shared firmware state with no
//! atomicity guarantee: callers must serialize all operations on one device
//! handle behind their own mutual-exclusion boundary.

use vstd::prelude::*;

use crate::codec::{
    GPIO_PIN_COUNT, clear_bit, read_bit, set_bit, spec_clear_bit, spec_read_bit, spec_set_bit,
};
use crate::errors::{
    ErrorCause, MCP2210Error, communication_error, spec_communication_error,
};
use vstd::utf8::{decode_utf8, valid_utf8};

verus! {

/// Direction a pin is configured for. A set direction-register bit encodes
/// `Out`, a clear bit encodes `In`.
#[derive(Clone, Copy, Debug, PartialEq, Eq, Structural)]
pub enum GPIODirection {
    Out,
    In,
}

/// Logic level of a pin: the level driven if the pin is an output, or the
/// level sensed if it is an input.
#[derive(Clone, Copy, Debug, PartialEq, Eq, Structural)]
pub enum GPIOPinValue {
    Off,
    On,
}

/// Remote wake-up-on-pin-activity flag, one per device.
#[derive(Clone, Copy, Debug, PartialEq, Eq, Structural)]
pub enum GPIOWakeUp {
    Disabled,
    Enabled,
}

/// Which pin edges or pulses the dedicated interrupt pin counts.
#[derive(Clone, Copy, Debug, PartialEq, Eq, Structural)]
pub enum InterruptCountingMode {
    NoCounting,
    FallingEdges,
    RisingEdges,
    LowPulse,
    HighPulse,
}

/// Whether the chip releases the SPI bus between transfers.
#[derive(Clone, Copy, Debug, PartialEq, Eq, Structural)]
pub enum BusReleaseOption {
    Enabled,
    Disabled,
}

/// The nine physical GPIO pins. A pin's ordinal doubles as its bit index in
/// the direction and value registers.
#[derive(Clone, Copy, Debug, PartialEq, Eq, Structural)]
pub enum GPIOPins {
    GP0,
    GP1,
    GP2,
    GP3,
    GP4,
    GP5,
    GP6,
    GP7,
    GP8,
}

impl GPIOPins {
    /// The pin's ordinal, which is also its bit index.
    pub open spec fn spec_ordinal(self) -> u32 {
        match self {
            GPIOPins::GP0 => 0,
            GPIOPins::GP1 => 1,
            GPIOPins::GP2 => 2,
            GPIOPins::GP3 => 3,
            GPIOPins::GP4 => 4,
            GPIOPins::GP5 => 5,
            GPIOPins::GP6 => 6,
            GPIOPins::GP7 => 7,
            GPIOPins::GP8 => 8,
        }
    }

    /// Returns the pin's ordinal; always below [`GPIO_PIN_COUNT`].
    pub fn ordinal(self) -> (n: u32)
        ensures
            n == self.spec_ordinal(),
            n < GPIO_PIN_COUNT,
    {
        match self {
            GPIOPins::GP0 => 0,
            GPIOPins::GP1 => 1,
            GPIOPins::GP2 => 2,
            GPIOPins::GP3 => 3,
            GPIOPins::GP4 => 4,
            GPIOPins::GP5 => 5,
            GPIOPins::GP6 => 6,
            GPIOPins::GP7 => 7,
            GPIOPins::GP8 => 8,
        }
    }

    /// The pin with the given ordinal, if the ordinal is in range.
    pub open spec fn spec_from_ordinal(n: u32) -> Option<GPIOPins> {
        if n == 0 {
            Some(GPIOPins::GP0)
        } else if n == 1 {
            Some(GPIOPins::GP1)
        } else if n == 2 {
            Some(GPIOPins::GP2)
        } else if n == 3 {
            Some(GPIOPins::GP3)
        } else if n == 4 {
            Some(GPIOPins::GP4)
        } else if n == 5 {
            Some(GPIOPins::GP5)
        } else if n == 6 {
            Some(GPIOPins::GP6)
        } else if n == 7 {
            Some(GPIOPins::GP7)
        } else if n == 8 {
            Some(GPIOPins::GP8)
        } else {
            None
        }
    }

    /// Looks a pin up by its ordinal.
    pub fn from_ordinal(n: u32) -> (p: Option<GPIOPins>)
        ensures
            p == Self::spec_from_ordinal(n),
            n < GPIO_PIN_COUNT <==> p is Some,
            p matches Some(pin) ==> pin.spec_ordinal() == n,
    {
        match n {
            0 => Some(GPIOPins::GP0),
            1 => Some(GPIOPins::GP1),
            2 => Some(GPIOPins::GP2),
            3 => Some(GPIOPins::GP3),
            4 => Some(GPIOPins::GP4),
            5 => Some(GPIOPins::GP5),
            6 => Some(GPIOPins::GP6),
            7 => Some(GPIOPins::GP7),
            8 => Some(GPIOPins::GP8),
            _ => None,
        }
    }
}

/// Which configuration store of the chip a query reads: the volatile store
/// resets on power loss, the non-volatile store persists.
#[derive(Clone, Copy, Debug, PartialEq, Eq, Structural)]
pub enum MCP2210MemorySource {
    Volatile,
    NonVolatile,
}

impl MCP2210MemorySource {
    /// The byte the foreign configuration call expects for this store.
    pub open spec fn spec_byte(self) -> u8 {
        match self {
            MCP2210MemorySource::Volatile => 0,
            MCP2210MemorySource::NonVolatile => 1,
        }
    }

    /// Encodes the store selector for the foreign configuration call.
    pub fn source_byte(self) -> (b: u8)
        ensures
            b == self.spec_byte(),
    {
        match self {
            MCP2210MemorySource::Volatile => 0,
            MCP2210MemorySource::NonVolatile => 1,
        }
    }
}

/// The fixed role a pin is wired to serve: plain GPIO, chip select, or a
/// dedicated alternate function.
#[derive(Clone, Copy, Debug, PartialEq, Eq, Structural)]
pub enum MCP2210PinDesignation {
    GPIO,
    CS,
    FN,
}

/// The designation a raw configuration byte encodes, if it is in range.
pub open spec fn spec_decode_designation(b: u8) -> Option<MCP2210PinDesignation> {
    if b == 0 {
        Some(MCP2210PinDesignation::GPIO)
    } else if b == 1 {
        Some(MCP2210PinDesignation::CS)
    } else if b == 2 {
        Some(MCP2210PinDesignation::FN)
    } else {
        None
    }
}

/// Decodes a pin-designation byte; any byte above 2 is out of range.
pub fn decode_designation(b: u8) -> (r: Option<MCP2210PinDesignation>)
    ensures
        r == spec_decode_designation(b),
{
    match b {
        0 => Some(MCP2210PinDesignation::GPIO),
        1 => Some(MCP2210PinDesignation::CS),
        2 => Some(MCP2210PinDesignation::FN),
        _ => None,
    }
}

/// The wake-up flag a raw configuration byte encodes, if it is in range.
pub open spec fn spec_decode_wake_up(b: u8) -> Option<GPIOWakeUp> {
    if b == 0 {
        Some(GPIOWakeUp::Disabled)
    } else if b == 1 {
        Some(GPIOWakeUp::Enabled)
    } else {
        None
    }
}

/// Decodes the remote wake-up flag byte.
pub fn decode_wake_up(b: u8) -> (r: Option<GPIOWakeUp>)
    ensures
        r == spec_decode_wake_up(b),
{
    match b {
        0 => Some(GPIOWakeUp::Disabled),
        1 => Some(GPIOWakeUp::Enabled),
        _ => None,
    }
}

/// The interrupt-counting mode a raw configuration byte encodes, if it is in
/// range.
pub open spec fn spec_decode_interrupt_mode(b: u8) -> Option<InterruptCountingMode> {
    if b == 0 {
        Some(InterruptCountingMode::NoCounting)
    } else if b == 1 {
        Some(InterruptCountingMode::FallingEdges)
    } else if b == 2 {
        Some(InterruptCountingMode::RisingEdges)
    } else if b == 3 {
        Some(InterruptCountingMode::LowPulse)
    } else if b == 4 {
        Some(InterruptCountingMode::HighPulse)
    } else {
        None
    }
}

/// Decodes the interrupt-counting mode byte.
pub fn decode_interrupt_mode(b: u8) -> (r: Option<InterruptCountingMode>)
    ensures
        r == spec_decode_interrupt_mode(b),
{
    match b {
        0 => Some(InterruptCountingMode::NoCounting),
        1 => Some(InterruptCountingMode::FallingEdges),
        2 => Some(InterruptCountingMode::RisingEdges),
        3 => Some(InterruptCountingMode::LowPulse),
        4 => Some(InterruptCountingMode::HighPulse),
        _ => None,
    }
}

/// The bus-release option a raw configuration byte encodes, if it is in
/// range. The chip encodes `Enabled` as zero.
pub open spec fn spec_decode_bus_release(b: u8) -> Option<BusReleaseOption> {
    if b == 0 {
        Some(BusReleaseOption::Enabled)
    } else if b == 1 {
        Some(BusReleaseOption::Disabled)
    } else {
        None
    }
}

/// Decodes the SPI bus-release option byte.
pub fn decode_bus_release(b: u8) -> (r: Option<BusReleaseOption>)
    ensures
        r == spec_decode_bus_release(b),
{
    match b {
        0 => Some(BusReleaseOption::Enabled),
        1 => Some(BusReleaseOption::Disabled),
        _ => None,
    }
}

/// The direction a register bit encodes: set means `Out`, clear means `In`.
pub open spec fn spec_direction_of_bit(bit: bool) -> GPIODirection {
    if bit {
        GPIODirection::Out
    } else {
        GPIODirection::In
    }
}

/// Maps a direction-register bit to the direction it encodes.
pub fn direction_of_bit(bit: bool) -> (d: GPIODirection)
    ensures
        d == spec_direction_of_bit(bit),
{
    if bit {
        GPIODirection::Out
    } else {
        GPIODirection::In
    }
}

/// The logic level a register bit encodes: set means `On`, clear means `Off`.
pub open spec fn spec_value_of_bit(bit: bool) -> GPIOPinValue {
    if bit {
        GPIOPinValue::On
    } else {
        GPIOPinValue::Off
    }
}

/// Maps a value-register bit to the logic level it encodes.
pub fn value_of_bit(bit: bool) -> (v: GPIOPinValue)
    ensures
        v == spec_value_of_bit(bit),
{
    if bit {
        GPIOPinValue::On
    } else {
        GPIOPinValue::Off
    }
}

/// The foreign open call signals failure by a handle whose first 32 bits
/// read as -1 when reinterpreted as signed.
pub open spec fn spec_handle_invalid(handle_bits: u64) -> bool {
    handle_bits & 0xFFFF_FFFF == 0xFFFF_FFFF
}

/// Tests a raw handle for the invalid-handle sentinel.
pub fn handle_is_invalid(handle_bits: u64) -> (b: bool)
    ensures
        b == spec_handle_invalid(handle_bits),
{
    handle_bits & 0xFFFF_FFFF == 0xFFFF_FFFF
}

/// Outcome of the foreign open-by-index call: a sentinel handle is a failure
/// carrying the classified last-error code the device reported; any other
/// handle opens the session.
pub fn interpret_open(handle_bits: u64, last_error_code: i32) -> (r: Result<(), MCP2210Error>)
    ensures
        spec_handle_invalid(handle_bits) ==> r == Err::<(), MCP2210Error>(
            spec_communication_error(last_error_code),
        ),
        !spec_handle_invalid(handle_bits) ==> r == Ok::<(), MCP2210Error>(()),
{
    if handle_is_invalid(handle_bits) {
        Err(communication_error(last_error_code))
    } else {
        Ok(())
    }
}

/// Relies on String::from_utf8: it returns Ok exactly when the bytes are
/// valid UTF-8, and the resulting string then decodes those bytes.
#[verifier::external_body]
fn string_from_utf8(bytes: Vec<u8>) -> (r: Option<String>)
    ensures
        r is Some <==> valid_utf8(bytes@),
        r matches Some(s) ==> s@ == decode_utf8(bytes@),
{
    String::from_utf8(bytes).ok()
}

/// Decodes the device-path bytes the foreign open call returned beside the
/// handle: no bytes means no path was reported; bytes that are not valid
/// text are a path-decode error, raised even though the handle itself may be
/// valid.
pub fn decode_device_path(bytes: Vec<u8>) -> (r: Result<Option<String>, MCP2210Error>)
    ensures
        bytes@.len() == 0 ==> r == Ok::<Option<String>, MCP2210Error>(None),
        bytes@.len() > 0 && valid_utf8(bytes@) ==> {
            &&& r matches Ok(p)
            &&& p matches Some(s)
            &&& s@ == decode_utf8(bytes@)
        },
        bytes@.len() > 0 && !valid_utf8(bytes@) ==> r == Err::<Option<String>, MCP2210Error>(
            MCP2210Error(ErrorCause::PathDecode),
        ),
{
    if bytes.len() == 0 {
        return Ok(None);
    }
    match string_from_utf8(bytes) {
        Some(s) => Ok(Some(s)),
        None => Err(MCP2210Error(ErrorCause::PathDecode)),
    }
}

/// Outcome of the foreign device-count call: only a strictly positive result
/// is a count; zero and every negative code are classified as errors.
pub fn interpret_device_count(result: i32) -> (r: Result<i32, MCP2210Error>)
    ensures
        result > 0 ==> r == Ok::<i32, MCP2210Error>(result),
        result <= 0 ==> r == Err::<i32, MCP2210Error>(spec_communication_error(result)),
{
    if result > 0 {
        Ok(result)
    } else {
        Err(communication_error(result))
    }
}

/// Outcome of a foreign register read (direction or value): a negative status
/// code is classified as an error, otherwise the register stands.
pub fn interpret_register_read(code: i32, register: u32) -> (r: Result<u32, MCP2210Error>)
    ensures
        code >= 0 ==> r == Ok::<u32, MCP2210Error>(register),
        code < 0 ==> r == Err::<u32, MCP2210Error>(spec_communication_error(code)),
{
    if code < 0 {
        Err(communication_error(code))
    } else {
        Ok(register)
    }
}

/// Outcome of a foreign register write: a negative status code is classified
/// as an error, otherwise the write took effect.
pub fn interpret_write_result(code: i32) -> (r: Result<(), MCP2210Error>)
    ensures
        code >= 0 ==> r == Ok::<(), MCP2210Error>(()),
        code < 0 ==> r == Err::<(), MCP2210Error>(spec_communication_error(code)),
{
    if code < 0 {
        Err(communication_error(code))
    } else {
        Ok(())
    }
}

/// The direction register after requesting `direction` for `pin`: `Out` sets
/// the pin's bit, `In` clears it.
pub open spec fn spec_direction_register(
    current: u32,
    pin: GPIOPins,
    direction: GPIODirection,
) -> u32 {
    match direction {
        GPIODirection::Out => spec_set_bit(current, pin.spec_ordinal()),
        GPIODirection::In => spec_clear_bit(current, pin.spec_ordinal()),
    }
}

/// Plans one set-pin-direction step: given the outcome of the foreign
/// direction read, either propagate the classified error — in which case no
/// write may follow — or produce the register the caller writes back.
pub fn set_pin_direction(
    read_code: i32,
    current: u32,
    pin: GPIOPins,
    direction: GPIODirection,
) -> (r: Result<u32, MCP2210Error>)
    ensures
        read_code < 0 ==> r == Err::<u32, MCP2210Error>(spec_communication_error(read_code)),
        read_code >= 0 ==> r == Ok::<u32, MCP2210Error>(
            spec_direction_register(current, pin, direction),
        ),
{
    let register = interpret_register_read(read_code, current)?;
    match direction {
        GPIODirection::Out => Ok(set_bit(register, pin.ordinal())),
        GPIODirection::In => Ok(clear_bit(register, pin.ordinal())),
    }
}

/// Reads one pin's logic level out of the outcome of the foreign value read:
/// a negative status code is a classified error; otherwise the pin's bit of
/// the value register, set meaning `On`.
pub fn get_pin_value(read_code: i32, register: u32, pin: GPIOPins) -> (r: Result<
    GPIOPinValue,
    MCP2210Error,
>)
    ensures
        read_code < 0 ==> r == Err::<GPIOPinValue, MCP2210Error>(
            spec_communication_error(read_code),
        ),
        read_code >= 0 ==> r == Ok::<GPIOPinValue, MCP2210Error>(
            spec_value_of_bit(spec_read_bit(register, pin.spec_ordinal())),
        ),
{
    let register = interpret_register_read(read_code, register)?;
    Ok(value_of_bit(read_bit(register, pin.ordinal())))
}

/// The value register after requesting `value` for `pin`: `On` sets the
/// pin's bit, `Off` clears it.
pub open spec fn spec_value_register(current: u32, pin: GPIOPins, value: GPIOPinValue) -> u32 {
    match value {
        GPIOPinValue::On => spec_set_bit(current, pin.spec_ordinal()),
        GPIOPinValue::Off => spec_clear_bit(current, pin.spec_ordinal()),
    }
}

/// Plans one set-pin-value step: given the outcome of the foreign value
/// read, either propagate the classified error — in which case no write may
/// follow — or produce the register the caller writes back.
pub fn set_pin_value(read_code: i32, current: u32, pin: GPIOPins, value: GPIOPinValue) -> (r:
    Result<u32, MCP2210Error>)
    ensures
        read_code < 0 ==> r == Err::<u32, MCP2210Error>(spec_communication_error(read_code)),
        read_code >= 0 ==> r == Ok::<u32, MCP2210Error>(
            spec_value_register(current, pin, value),
        ),
{
    let register = interpret_register_read(read_code, current)?;
    match value {
        GPIOPinValue::On => Ok(set_bit(register, pin.ordinal())),
        GPIOPinValue::Off => Ok(clear_bit(register, pin.ordinal())),
    }
}

/// Idempotence: setting the same direction twice in a row yields the same
/// final register as setting it once, given no concurrent interference.
pub proof fn lemma_direction_idempotent(current: u32, pin: GPIOPins, direction: GPIODirection)
    ensures
        spec_direction_register(spec_direction_register(current, pin, direction), pin, direction)
            == spec_direction_register(current, pin, direction),
{
    crate::codec::lemma_bit_idempotent(current, pin.spec_ordinal());
}

/// Round trip: the direction just planned for a pin reads back as itself out
/// of the planned register, so a write followed by an undisturbed read
/// returns the direction that was written.
pub proof fn lemma_direction_round_trip(current: u32, pin: GPIOPins, direction: GPIODirection)
    ensures
        spec_direction_of_bit(
            spec_read_bit(spec_direction_register(current, pin, direction), pin.spec_ordinal()),
        ) == direction,
{
    match direction {
        GPIODirection::Out => crate::codec::lemma_read_set_bit(current, pin.spec_ordinal()),
        GPIODirection::In => crate::codec::lemma_read_clear_bit(current, pin.spec_ordinal()),
    }
}

/// Role, default output level, and default direction of one pin, as reported
/// by the configuration query.
#[derive(Clone, Copy, Debug, PartialEq, Eq, Structural)]
pub struct MCP2210GPIOInfo {
    pub designation: MCP2210PinDesignation,
    pub output: GPIOPinValue,
    pub direction: GPIODirection,
}

/// Full device configuration snapshot: one entry per pin, in ordinal order,
/// plus the three per-device flags. Constructed fresh on every query, never
/// partially mutated.
#[derive(Clone, Debug, PartialEq, Eq)]
pub struct MCP2210Config {
    pub pins: Vec<MCP2210GPIOInfo>,
    pub wake_up: GPIOWakeUp,
    pub interrupt_counting: InterruptCountingMode,
    pub bus_release: BusReleaseOption,
}

impl MCP2210Config {
    /// A well-formed snapshot holds exactly one entry per pin.
    pub open spec fn wf(self) -> bool {
        self.pins@.len() == GPIO_PIN_COUNT
    }

    /// The entry of one pin, indexed by its ordinal.
    pub fn pin_info(&self, pin: GPIOPins) -> (info: MCP2210GPIOInfo)
        requires
            self.wf(),
        ensures
            info == self.pins@[pin.spec_ordinal() as int],
    {
        self.pins[pin.ordinal() as usize]
    }
}

/// Whether every byte of a raw designation array is in range.
pub open spec fn spec_designations_valid(des: Seq<u8>) -> bool {
    forall|i: int| 0 <= i < des.len() ==> spec_decode_designation(des[i]) is Some
}

/// Whether the three raw per-device flag bytes are all in range.
pub open spec fn spec_flags_valid(wake_up: u8, interrupt_mode: u8, bus_release: u8) -> bool {
    &&& spec_decode_wake_up(wake_up) is Some
    &&& spec_decode_interrupt_mode(interrupt_mode) is Some
    &&& spec_decode_bus_release(bus_release) is Some
}

/// The decoded entry of the pin with ordinal `i`: its designation byte, and
/// its bits of the default-output and default-direction registers.
pub open spec fn spec_pin_info(
    des: Seq<u8>,
    output_register: u32,
    direction_register: u32,
    i: int,
) -> MCP2210GPIOInfo
    recommends
        0 <= i < des.len(),
        spec_decode_designation(des[i]) is Some,
{
    MCP2210GPIOInfo {
        designation: spec_decode_designation(des[i])->0,
        output: spec_value_of_bit(spec_read_bit(output_register, i as u32)),
        direction: spec_direction_of_bit(spec_read_bit(direction_register, i as u32)),
    }
}

/// Decodes the outcome of the foreign configuration query. A negative status
/// code is a classified communication error; a designation or flag byte out
/// of its enumeration's range is a configuration-decode error; otherwise the
/// snapshot holds one decoded entry per pin and the three decoded flags. No
/// partial snapshot is ever returned.
pub fn decode_config(
    return_code: i32,
    designations: &Vec<u8>,
    output_register: u32,
    direction_register: u32,
    wake_up: u8,
    interrupt_mode: u8,
    bus_release: u8,
) -> (r: Result<MCP2210Config, MCP2210Error>)
    requires
        designations@.len() == GPIO_PIN_COUNT,
    ensures
        return_code < 0 ==> r == Err::<MCP2210Config, MCP2210Error>(
            spec_communication_error(return_code),
        ),
        return_code >= 0 && !(spec_designations_valid(designations@) && spec_flags_valid(
            wake_up,
            interrupt_mode,
            bus_release,
        )) ==> r == Err::<MCP2210Config, MCP2210Error>(MCP2210Error(ErrorCause::ConfigDecode)),
        return_code >= 0 && spec_designations_valid(designations@) && spec_flags_valid(
            wake_up,
            interrupt_mode,
            bus_release,
        ) ==> {
            &&& r matches Ok(c)
            &&& c.wf()
            &&& forall|i: int|
                0 <= i < GPIO_PIN_COUNT ==> c.pins@[i] == spec_pin_info(
                    designations@,
                    output_register,
                    direction_register,
                    i,
                )
            &&& c.wake_up == spec_decode_wake_up(wake_up)->0
            &&& c.interrupt_counting == spec_decode_interrupt_mode(interrupt_mode)->0
            &&& c.bus_release == spec_decode_bus_release(bus_release)->0
        },
{
    if return_code < 0 {
        return Err(communication_error(return_code));
    }
    let config_error = MCP2210Error(ErrorCause::ConfigDecode);
    let mut pins: Vec<MCP2210GPIOInfo> = Vec::new();
    let mut i: u32 = 0;
    while i < GPIO_PIN_COUNT
        invariant
            0 <= return_code,
            i <= GPIO_PIN_COUNT,
            designations@.len() == GPIO_PIN_COUNT,
            config_error == MCP2210Error(ErrorCause::ConfigDecode),
            pins@.len() == i,
            forall|j: int| 0 <= j < i ==> spec_decode_designation(designations@[j]) is Some,
            forall|j: int|
                0 <= j < i ==> pins@[j] == spec_pin_info(
                    designations@,
                    output_register,
                    direction_register,
                    j,
                ),
        decreases GPIO_PIN_COUNT - i,
    {
        let designation = match decode_designation(designations[i as usize]) {
            Some(d) => d,
            None => {
                proof {
                    assert(spec_decode_designation(designations@[i as int]) is None);
                    assert(!spec_designations_valid(designations@));
                }
                return Err(config_error);
            },
        };
        let output = value_of_bit(read_bit(output_register, i));
        let direction = direction_of_bit(read_bit(direction_register, i));
        pins.push(MCP2210GPIOInfo { designation, output, direction });
        i = i + 1;
    }
    let wake_up = match decode_wake_up(wake_up) {
        Some(w) => w,
        None => {
            return Err(config_error);
        },
    };
    let interrupt_counting = match decode_interrupt_mode(interrupt_mode) {
        Some(m) => m,
        None => {
            return Err(config_error);
        },
    };
    let bus_release = match decode_bus_release(bus_release) {
        Some(b) => b,
        None => {
            return Err(config_error);
        },
    };
    Ok(MCP2210Config { pins, wake_up, interrupt_counting, bus_release })
}

} // verus!

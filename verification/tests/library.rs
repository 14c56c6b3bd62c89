use mcp2210::codec::read_bit;
use mcp2210::errors::{ErrorCause, ErrorKind, MCP2210Error};
use mcp2210::library::{
    decode_bus_release, decode_config, decode_designation, decode_device_path,
    decode_interrupt_mode, decode_wake_up, direction_of_bit, get_pin_value, handle_is_invalid,
    interpret_device_count, interpret_open, interpret_register_read, interpret_write_result,
    set_pin_direction, set_pin_value, value_of_bit, BusReleaseOption, GPIODirection, GPIOPinValue,
    GPIOPins, GPIOWakeUp, InterruptCountingMode, MCP2210MemorySource, MCP2210PinDesignation,
};

const ALL_PINS: [GPIOPins; 9] = [
    GPIOPins::GP0,
    GPIOPins::GP1,
    GPIOPins::GP2,
    GPIOPins::GP3,
    GPIOPins::GP4,
    GPIOPins::GP5,
    GPIOPins::GP6,
    GPIOPins::GP7,
    GPIOPins::GP8,
];

fn communication(kind: ErrorKind) -> MCP2210Error {
    MCP2210Error(ErrorCause::Communication(kind))
}

#[test]
fn pin_ordinals_count_up_from_zero() {
    for (i, pin) in ALL_PINS.iter().enumerate() {
        assert_eq!(pin.ordinal(), i as u32);
        assert_eq!(GPIOPins::from_ordinal(i as u32), Some(*pin));
    }
    assert_eq!(GPIOPins::from_ordinal(9), None);
    assert_eq!(GPIOPins::from_ordinal(u32::MAX), None);
}

#[test]
fn memory_source_bytes() {
    assert_eq!(MCP2210MemorySource::Volatile.source_byte(), 0);
    assert_eq!(MCP2210MemorySource::NonVolatile.source_byte(), 1);
}

#[test]
fn designation_decoding() {
    assert_eq!(decode_designation(0), Some(MCP2210PinDesignation::GPIO));
    assert_eq!(decode_designation(1), Some(MCP2210PinDesignation::CS));
    assert_eq!(decode_designation(2), Some(MCP2210PinDesignation::FN));
    assert_eq!(decode_designation(3), None);
    assert_eq!(decode_designation(0xFF), None);
}

#[test]
fn flag_decoding() {
    assert_eq!(decode_wake_up(0), Some(GPIOWakeUp::Disabled));
    assert_eq!(decode_wake_up(1), Some(GPIOWakeUp::Enabled));
    assert_eq!(decode_wake_up(2), None);
    assert_eq!(decode_interrupt_mode(0), Some(InterruptCountingMode::NoCounting));
    assert_eq!(decode_interrupt_mode(1), Some(InterruptCountingMode::FallingEdges));
    assert_eq!(decode_interrupt_mode(2), Some(InterruptCountingMode::RisingEdges));
    assert_eq!(decode_interrupt_mode(3), Some(InterruptCountingMode::LowPulse));
    assert_eq!(decode_interrupt_mode(4), Some(InterruptCountingMode::HighPulse));
    assert_eq!(decode_interrupt_mode(5), None);
    assert_eq!(decode_bus_release(0), Some(BusReleaseOption::Enabled));
    assert_eq!(decode_bus_release(1), Some(BusReleaseOption::Disabled));
    assert_eq!(decode_bus_release(2), None);
}

#[test]
fn bit_to_direction_and_value() {
    assert_eq!(direction_of_bit(true), GPIODirection::Out);
    assert_eq!(direction_of_bit(false), GPIODirection::In);
    assert_eq!(value_of_bit(true), GPIOPinValue::On);
    assert_eq!(value_of_bit(false), GPIOPinValue::Off);
}

#[test]
fn invalid_handle_sentinel() {
    assert!(handle_is_invalid(0xFFFF_FFFF));
    assert!(handle_is_invalid(0xAAAA_0000_FFFF_FFFF));
    assert!(!handle_is_invalid(0));
    assert!(!handle_is_invalid(0x1234));
    assert!(!handle_is_invalid(0xFFFF_FFFE));
}

#[test]
fn open_fails_on_sentinel_with_classified_last_error() {
    assert_eq!(
        interpret_open(0xFFFF_FFFF, -1),
        Err(communication(ErrorKind::Unknown))
    );
    assert_eq!(
        interpret_open(0xFFFF_FFFF, -106),
        Err(communication(ErrorKind::ConnectionAlreadyOpen))
    );
    assert_eq!(interpret_open(0x1234, -1), Ok(()));
}

#[test]
fn device_path_empty_means_no_path() {
    assert_eq!(decode_device_path(Vec::new()), Ok(None));
}

#[test]
fn device_path_valid_text_is_returned() {
    let bytes = b"/dev/hidraw0".to_vec();
    assert_eq!(
        decode_device_path(bytes),
        Ok(Some(String::from("/dev/hidraw0")))
    );
}

#[test]
fn device_path_invalid_text_is_an_error() {
    let bytes = vec![0xFF, 0xFE, 0x41];
    assert_eq!(
        decode_device_path(bytes),
        Err(MCP2210Error(ErrorCause::PathDecode))
    );
}

#[test]
fn three_devices_enumerate_as_three() {
    assert_eq!(interpret_device_count(3), Ok(3));
    assert_eq!(interpret_device_count(1), Ok(1));
}

#[test]
fn negative_device_count_is_classified() {
    assert_eq!(
        interpret_device_count(-1),
        Err(communication(ErrorKind::Unknown))
    );
    assert_eq!(
        interpret_device_count(-100),
        Err(communication(ErrorKind::DeviceNotFound))
    );
}

#[test]
fn zero_device_count_is_an_error() {
    assert!(interpret_device_count(0).is_err());
}

#[test]
fn register_read_outcomes() {
    assert_eq!(interpret_register_read(0, 0xABCD), Ok(0xABCD));
    assert_eq!(interpret_register_read(7, 0), Ok(0));
    assert_eq!(
        interpret_register_read(-3, 0xABCD),
        Err(communication(ErrorKind::BufferTooSmall))
    );
}

#[test]
fn write_result_outcomes() {
    assert_eq!(interpret_write_result(0), Ok(()));
    assert_eq!(interpret_write_result(5), Ok(()));
    assert_eq!(
        interpret_write_result(-2),
        Err(communication(ErrorKind::InvalidParameter))
    );
}

#[test]
fn direction_out_sets_the_pin_bit() {
    assert_eq!(
        set_pin_direction(0, 0, GPIOPins::GP1, GPIODirection::Out),
        Ok(0b10)
    );
    assert_eq!(
        set_pin_direction(0, 0b1_0000_0000, GPIOPins::GP8, GPIODirection::Out),
        Ok(0b1_0000_0000)
    );
}

#[test]
fn direction_in_clears_the_pin_bit() {
    assert_eq!(
        set_pin_direction(0, 0b10, GPIOPins::GP1, GPIODirection::In),
        Ok(0)
    );
    assert_eq!(
        set_pin_direction(0, 0x1FF, GPIOPins::GP0, GPIODirection::In),
        Ok(0x1FE)
    );
}

#[test]
fn failed_direction_read_propagates_without_a_write() {
    let r = set_pin_direction(-1, 0, GPIOPins::GP1, GPIODirection::Out);
    assert_eq!(r, Err(communication(ErrorKind::Unknown)));
    let r = set_pin_direction(-104, 0xFFFF_FFFF, GPIOPins::GP8, GPIODirection::In);
    assert_eq!(r, Err(communication(ErrorKind::InternalBufferTooSmall)));
}

#[test]
fn direction_written_reads_back() {
    for pin in ALL_PINS {
        for direction in [GPIODirection::Out, GPIODirection::In] {
            for current in [0u32, 0x1FF, 0xA5A5_A5A5] {
                let written = set_pin_direction(0, current, pin, direction).unwrap();
                assert_eq!(direction_of_bit(read_bit(written, pin.ordinal())), direction);
            }
        }
    }
}

#[test]
fn direction_setting_is_idempotent() {
    for pin in ALL_PINS {
        for direction in [GPIODirection::Out, GPIODirection::In] {
            let once = set_pin_direction(0, 0b1_0101_0101, pin, direction).unwrap();
            let twice = set_pin_direction(0, once, pin, direction).unwrap();
            assert_eq!(once, twice);
        }
    }
}

#[test]
fn pin_value_reads() {
    assert_eq!(get_pin_value(0, 0b100, GPIOPins::GP2), Ok(GPIOPinValue::On));
    assert_eq!(get_pin_value(0, 0, GPIOPins::GP2), Ok(GPIOPinValue::Off));
    assert_eq!(
        get_pin_value(-10, 0b100, GPIOPins::GP2),
        Err(communication(ErrorKind::NullPointer))
    );
}

#[test]
fn pin_value_writes() {
    assert_eq!(
        set_pin_value(0, 0, GPIOPins::GP3, GPIOPinValue::On),
        Ok(0b1000)
    );
    assert_eq!(
        set_pin_value(0, 0b1000, GPIOPins::GP3, GPIOPinValue::Off),
        Ok(0)
    );
    assert_eq!(
        set_pin_value(-30, 0, GPIOPins::GP3, GPIOPinValue::On),
        Err(communication(ErrorKind::InvalidFileHandle))
    );
}

#[test]
fn config_decodes_designations_outputs_and_directions() {
    let designations = vec![0u8, 1, 2, 0, 0, 0, 0, 0, 0];
    let config = decode_config(0, &designations, 0b0_0000_0001, 0b0_0000_0000, 0, 0, 0).unwrap();
    let p0 = config.pin_info(GPIOPins::GP0);
    assert_eq!(p0.designation, MCP2210PinDesignation::GPIO);
    assert_eq!(p0.output, GPIOPinValue::On);
    assert_eq!(p0.direction, GPIODirection::In);
    assert_eq!(
        config.pin_info(GPIOPins::GP1).designation,
        MCP2210PinDesignation::CS
    );
    assert_eq!(
        config.pin_info(GPIOPins::GP2).designation,
        MCP2210PinDesignation::FN
    );
    for pin in &ALL_PINS[3..] {
        let info = config.pin_info(*pin);
        assert_eq!(info.designation, MCP2210PinDesignation::GPIO);
        assert_eq!(info.output, GPIOPinValue::Off);
        assert_eq!(info.direction, GPIODirection::In);
    }
    assert_eq!(config.wake_up, GPIOWakeUp::Disabled);
    assert_eq!(config.interrupt_counting, InterruptCountingMode::NoCounting);
    assert_eq!(config.bus_release, BusReleaseOption::Enabled);
}

#[test]
fn config_decodes_flags_and_direction_bits() {
    let designations = vec![0u8; 9];
    let config = decode_config(0, &designations, 0, 0x1FF, 1, 4, 1).unwrap();
    for pin in ALL_PINS {
        assert_eq!(config.pin_info(pin).direction, GPIODirection::Out);
        assert_eq!(config.pin_info(pin).output, GPIOPinValue::Off);
    }
    assert_eq!(config.wake_up, GPIOWakeUp::Enabled);
    assert_eq!(config.interrupt_counting, InterruptCountingMode::HighPulse);
    assert_eq!(config.bus_release, BusReleaseOption::Disabled);
}

#[test]
fn config_negative_code_is_classified_with_no_snapshot() {
    let designations = vec![0u8; 9];
    assert_eq!(
        decode_config(-101, &designations, 0, 0, 0, 0, 0),
        Err(communication(ErrorKind::InvalidDeviceIndex))
    );
}

#[test]
fn config_bad_designation_byte_fails_decoding() {
    let designations = vec![0u8, 1, 2, 3, 0, 0, 0, 0, 0];
    assert_eq!(
        decode_config(0, &designations, 0, 0, 0, 0, 0),
        Err(MCP2210Error(ErrorCause::ConfigDecode))
    );
}

#[test]
fn config_bad_flag_bytes_fail_decoding() {
    let designations = vec![0u8; 9];
    let config_decode_error = Err(MCP2210Error(ErrorCause::ConfigDecode));
    assert_eq!(decode_config(0, &designations, 0, 0, 2, 0, 0), config_decode_error);
    assert_eq!(decode_config(0, &designations, 0, 0, 0, 5, 0), config_decode_error);
    assert_eq!(decode_config(0, &designations, 0, 0, 0, 0, 2), config_decode_error);
}

use mcp2210::codec::{clear_bit, read_bit, set_bit, GPIO_PIN_COUNT};

const SAMPLE_REGISTERS: [u32; 6] = [0, 1, 0x1FF, 0xFFFF_FFFF, 0b1010_1010_1, 0x1234_5678];

#[test]
fn pin_count_is_nine() {
    assert_eq!(GPIO_PIN_COUNT, 9);
}

#[test]
fn set_bit_concrete() {
    assert_eq!(set_bit(0, 3), 0b1000);
    assert_eq!(set_bit(0b1000, 3), 0b1000);
    assert_eq!(set_bit(0b0001, 8), 0b1_0000_0001);
}

#[test]
fn clear_bit_concrete() {
    assert_eq!(clear_bit(0xFF, 0), 0xFE);
    assert_eq!(clear_bit(0b1000, 3), 0);
    assert_eq!(clear_bit(0, 5), 0);
}

#[test]
fn read_bit_concrete() {
    assert!(read_bit(0b100, 2));
    assert!(!read_bit(0b100, 1));
    assert!(read_bit(0xFFFF_FFFF, 8));
}

#[test]
fn read_after_set_is_true() {
    for r in SAMPLE_REGISTERS {
        for p in 0..GPIO_PIN_COUNT {
            assert!(read_bit(set_bit(r, p), p));
        }
    }
}

#[test]
fn read_after_clear_is_false() {
    for r in SAMPLE_REGISTERS {
        for p in 0..GPIO_PIN_COUNT {
            assert!(!read_bit(clear_bit(r, p), p));
        }
    }
}

#[test]
fn set_and_clear_leave_other_bits_alone() {
    for r in SAMPLE_REGISTERS {
        for p in 0..GPIO_PIN_COUNT {
            for q in 0..GPIO_PIN_COUNT {
                if p != q {
                    assert_eq!(read_bit(set_bit(r, p), q), read_bit(r, q));
                    assert_eq!(read_bit(clear_bit(r, p), q), read_bit(r, q));
                }
            }
        }
    }
}

#[test]
fn set_and_clear_are_idempotent() {
    for r in SAMPLE_REGISTERS {
        for p in 0..GPIO_PIN_COUNT {
            assert_eq!(set_bit(set_bit(r, p), p), set_bit(r, p));
            assert_eq!(clear_bit(clear_bit(r, p), p), clear_bit(r, p));
        }
    }
}

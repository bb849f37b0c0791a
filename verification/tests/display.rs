use fan_control::lcd::{delay_cycles_ms, delay_cycles_us, I2CLcd, LCD_ADDRESS};

#[test]
fn digits_are_right_aligned_in_ten_bytes() {
    let (start, bytes) = I2CLcd::from_number(1234);
    assert_eq!(start, 6);
    assert_eq!(&bytes[start..], b"1234");
    assert_eq!(&bytes[..start], &[0u8; 6]);
}

#[test]
fn largest_number_fills_all_ten_bytes() {
    let (start, bytes) = I2CLcd::from_number(u32::MAX);
    assert_eq!(start, 0);
    assert_eq!(&bytes, b"4294967295");
}

#[test]
fn zero_has_no_digits() {
    let (start, bytes) = I2CLcd::from_number(0);
    assert_eq!(start, 10);
    assert_eq!(bytes, [0, 0, 0, 0, 0, 0, 0, 0, 0, b'0']);
}

#[test]
fn single_digit_and_round_numbers() {
    let (start, bytes) = I2CLcd::from_number(7);
    assert_eq!(start, 9);
    assert_eq!(bytes[9], b'7');
    let (start, bytes) = I2CLcd::from_number(100);
    assert_eq!(start, 7);
    assert_eq!(&bytes[start..], b"100");
    let (start, bytes) = I2CLcd::from_number(1_000_000_000);
    assert_eq!(start, 0);
    assert_eq!(&bytes, b"1000000000");
}

#[test]
fn duty_cycle_is_shown_after_its_label() {
    let (label, value) = I2CLcd::write_duty_cycle(50);
    assert_eq!(label.position, 0);
    assert_eq!(label.text, b"Fan:     ".to_vec());
    assert_eq!(value.position, 5);
    assert_eq!(value.text, b"50%".to_vec());
}

#[test]
fn duty_cycle_above_a_hundred_is_shown_as_a_hundred() {
    let (_, value) = I2CLcd::write_duty_cycle(100);
    assert_eq!(value.text, b"100%".to_vec());
    let (_, value) = I2CLcd::write_duty_cycle(101);
    assert_eq!(value.text, b"100%".to_vec());
    let (_, value) = I2CLcd::write_duty_cycle(255);
    assert_eq!(value.text, b"100%".to_vec());
    let (_, value) = I2CLcd::write_duty_cycle(9);
    assert_eq!(value.text, b"9%".to_vec());
}

#[test]
fn duty_cycle_of_zero_shows_the_sign_alone() {
    let (label, value) = I2CLcd::write_duty_cycle(0);
    assert_eq!(label.text.len(), 9);
    assert_eq!(value.position, 5);
    assert_eq!(value.text, b"%".to_vec());
}

#[test]
fn number_follows_its_label() {
    let write = I2CLcd::write_number(4711);
    assert_eq!(write.position, 0);
    assert_eq!(write.text, b"DNum: 4711".to_vec());
    let write = I2CLcd::write_number(0);
    assert_eq!(write.text, b"DNum: ".to_vec());
    let write = I2CLcd::write_number(u32::MAX);
    assert_eq!(write.text, b"DNum: 4294967295".to_vec());
}

#[test]
fn message_goes_to_its_row_and_column() {
    let write = I2CLcd::write_message("Heat Palette", (1, 0));
    assert_eq!(write.position, 40);
    assert_eq!(write.text, b"Heat Palette".to_vec());
    let write = I2CLcd::write_message("", (0, 15));
    assert_eq!(write.position, 15);
    assert!(write.text.is_empty());
    let write = I2CLcd::write_message("x", (6, 15));
    assert_eq!(write.position, 255);
    let write = I2CLcd::write_message("x", (1, 39));
    assert_eq!(write.position, 79);
}

#[test]
fn display_sits_at_its_bus_address() {
    assert_eq!(I2CLcd::new().address(), 0x27);
    assert_eq!(LCD_ADDRESS, 0x27);
}

#[test]
fn delays_are_counted_in_cycles() {
    assert_eq!(delay_cycles_us(0), 0);
    assert_eq!(delay_cycles_us(1), 50);
    assert_eq!(delay_cycles_us(u16::MAX), 3_276_750);
    assert_eq!(delay_cycles_ms(1), 50_000);
    assert_eq!(delay_cycles_ms(u8::MAX), 12_750_000);
}

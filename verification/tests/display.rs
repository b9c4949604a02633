use segment_display::char_to_segment_code;
use segment_display::digit_to_segment_code;
use segment_display::DelaySource;
use segment_display::Error;
use segment_display::SegmentDisplay;
use segment_display::StrobeOutput;
use segment_display::Transport;

/// Records every write attempt; can be told to reject the first `fail_count`
/// of them.
struct FakeTransport {
    written: Vec<Vec<u8>>,
    fail_count: usize,
    id: u32,
}

impl FakeTransport {
    fn new(id: u32) -> Self {
        FakeTransport { written: Vec::new(), fail_count: 0, id }
    }

    fn failing(id: u32, fail_count: usize) -> Self {
        FakeTransport { written: Vec::new(), fail_count, id }
    }
}

impl Transport for FakeTransport {
    type Error = u8;

    fn write(&mut self, bytes: &[u8]) -> Result<(), u8> {
        self.written.push(bytes.to_vec());
        if self.fail_count > 0 {
            self.fail_count -= 1;
            Err(42)
        } else {
            Ok(())
        }
    }
}

/// Records every requested level (false = low, true = high); can be told to
/// reject low or high requests.
struct FakePin {
    levels: Vec<bool>,
    fail_low: bool,
    fail_high: bool,
    id: u32,
}

impl FakePin {
    fn new(id: u32) -> Self {
        FakePin { levels: Vec::new(), fail_low: false, fail_high: false, id }
    }
}

impl StrobeOutput for FakePin {
    type Error = u8;

    fn set_low(&mut self) -> Result<(), u8> {
        self.levels.push(false);
        if self.fail_low {
            Err(7)
        } else {
            Ok(())
        }
    }

    fn set_high(&mut self) -> Result<(), u8> {
        self.levels.push(true);
        if self.fail_high {
            Err(7)
        } else {
            Ok(())
        }
    }
}

/// Counts the pauses it was asked for.
struct FakeDelay {
    calls: Vec<u16>,
}

impl DelaySource for FakeDelay {
    fn delay_us(&mut self, us: u16) {
        self.calls.push(us);
    }
}

fn new_display() -> SegmentDisplay<FakeTransport, FakePin> {
    SegmentDisplay::new(FakeTransport::new(1), FakePin::new(2))
}

/// Refresh four times and return the four transmitted segment patterns.
fn transmitted_patterns(mut display: SegmentDisplay<FakeTransport, FakePin>) -> Vec<u8> {
    for _ in 0..4 {
        display.refresh().unwrap();
    }
    let (spi, _pin) = display.release();
    spi.written.iter().map(|w| w[0]).collect()
}

#[test]
fn new_display_starts_blank() {
    let display = new_display();
    assert_eq!(transmitted_patterns(display), vec![0xff, 0xff, 0xff, 0xff]);
}

#[test]
fn write_chars_fills_all_slots() {
    let mut display = new_display();
    display.write_chars(['A', 'B', 'C', 'D']);
    let expected: Vec<u8> = "ABCD".chars().map(char_to_segment_code).collect();
    assert_eq!(transmitted_patterns(display), expected);
}

#[test]
fn write_str_truncates_to_four() {
    let mut display = new_display();
    display.write_str("HELLO");
    let expected: Vec<u8> = "HELL".chars().map(char_to_segment_code).collect();
    assert_eq!(transmitted_patterns(display), expected);
}

#[test]
fn write_str_blank_fills_short_input() {
    let mut display = new_display();
    display.write_str("AB");
    let expected = vec![char_to_segment_code('A'), char_to_segment_code('B'), 0xff, 0xff];
    assert_eq!(transmitted_patterns(display), expected);
}

#[test]
fn write_number_keeps_leading_zeros() {
    let mut display = new_display();
    display.write_number(7);
    let expected = vec![
        digit_to_segment_code(0),
        digit_to_segment_code(0),
        digit_to_segment_code(0),
        digit_to_segment_code(7),
    ];
    assert_eq!(transmitted_patterns(display), expected);
}

#[test]
fn write_number_decomposes_digits() {
    let mut display = new_display();
    display.write_number(123);
    assert_eq!(
        transmitted_patterns(display),
        vec![0b1100_0000, 0b1111_1001, 0b1010_0100, 0b1011_0000],
    );
}

#[test]
fn write_number_clamps_above_9999() {
    let mut clamped = new_display();
    clamped.write_number(12345);
    let mut max = new_display();
    max.write_number(9999);
    assert_eq!(transmitted_patterns(clamped), transmitted_patterns(max));
    let mut nines = new_display();
    nines.write_number(10000);
    assert_eq!(transmitted_patterns(nines), vec![0b1001_1000; 4]);
}

#[test]
fn refresh_cycles_select_masks() {
    let mut display = new_display();
    for _ in 0..5 {
        display.refresh().unwrap();
    }
    let (spi, _pin) = display.release();
    let masks: Vec<u8> = spi.written.iter().map(|w| w[1]).collect();
    assert_eq!(masks, vec![0b1000, 0b0100, 0b0010, 0b0001, 0b1000]);
}

#[test]
fn refresh_transmits_slot_and_mask() {
    let mut display = new_display();
    display.write_chars(['1', '2', '3', '4']);
    display.refresh().unwrap();
    display.refresh().unwrap();
    let (spi, _pin) = display.release();
    assert_eq!(spi.written[0], vec![char_to_segment_code('1'), 0b1000]);
    assert_eq!(spi.written[1], vec![char_to_segment_code('2'), 0b0100]);
}

#[test]
fn refresh_latches_low_then_high() {
    let mut display = new_display();
    let result = display.refresh();
    assert!(result.is_ok());
    let (spi, pin) = display.release();
    assert_eq!(pin.levels, vec![false, true]);
    assert_eq!(spi.written.len(), 1);
}

#[test]
fn failed_set_low_skips_the_transport() {
    let mut pin = FakePin::new(2);
    pin.fail_low = true;
    let mut display = SegmentDisplay::new(FakeTransport::new(1), pin);
    let result = display.refresh();
    assert!(matches!(result, Err(Error::Pin(7))));
    let (spi, pin) = display.release();
    assert!(spi.written.is_empty());
    assert_eq!(pin.levels, vec![false]);
}

#[test]
fn failed_write_reports_spi_and_cursor_has_advanced() {
    let mut display = SegmentDisplay::new(FakeTransport::failing(1, 1), FakePin::new(2));
    let result = display.refresh();
    assert!(matches!(result, Err(Error::Spi(42))));
    // The cursor moved before the failure: the next refresh selects digit 1.
    display.refresh().unwrap();
    let (spi, pin) = display.release();
    assert_eq!(spi.written[0][1], 0b1000);
    assert_eq!(spi.written[1][1], 0b0100);
    // The failing cycle stopped before the latch was raised.
    assert_eq!(pin.levels, vec![false, false, true]);
}

#[test]
fn failed_set_high_reports_pin_after_the_write() {
    let mut pin = FakePin::new(2);
    pin.fail_high = true;
    let mut display = SegmentDisplay::new(FakeTransport::new(1), pin);
    let result = display.refresh();
    assert!(matches!(result, Err(Error::Pin(7))));
    let (spi, pin) = display.release();
    assert_eq!(spi.written.len(), 1);
    assert_eq!(pin.levels, vec![false, true]);
}

#[test]
fn release_returns_the_same_instances() {
    let display = SegmentDisplay::new(FakeTransport::new(17), FakePin::new(23));
    let (spi, pin) = display.release();
    assert_eq!(spi.id, 17);
    assert_eq!(pin.id, 23);
}

#[test]
fn refresh_with_delay_pauses_before_the_latch() {
    let mut display = new_display();
    display.write_str("42");
    let mut delay = FakeDelay { calls: Vec::new() };
    display.refresh_with_delay(&mut delay).unwrap();
    assert_eq!(delay.calls, vec![100]);
    let (spi, pin) = display.release();
    assert_eq!(spi.written[0], vec![char_to_segment_code('4'), 0b1000]);
    assert_eq!(pin.levels, vec![false, true]);
}

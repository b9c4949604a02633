//! The display controller: a 4-slot back buffer of segment patterns, a
//! rotating digit cursor, and the owned transport and strobe collaborators.

use vstd::prelude::*;

use crate::encoding::char_segments;
use crate::encoding::char_to_segment_code;
use crate::encoding::digit_segments;
use crate::encoding::digit_to_segment_code;
use crate::encoding::BLANK;

verus! {

/// A byte-oriented synchronous output bus (the shift-register data line).
///
/// `writes()` models the history of write attempts, oldest first: each call
/// of `write` records the bytes it was handed, whether or not the bus
/// accepted them.
pub trait Transport {
    type Error;

    /// The model of an implementation that records nothing is empty;
    /// a recording implementation overrides this with its own history.
    open spec fn writes(&self) -> Seq<Seq<u8>> {
        Seq::empty()
    }

    fn write(&mut self, bytes: &[u8]) -> (result: Result<(), Self::Error>)
        ensures
            final(self).writes() == old(self).writes().push(bytes@),
    ;
}

/// A single digital output line (the latch/strobe).
///
/// `levels()` models the history of requested levels, oldest first:
/// `set_low` records `false` and `set_high` records `true`, whether or not
/// the pin accepted the change.
pub trait StrobeOutput {
    type Error;

    /// The model of an implementation that records nothing is empty;
    /// a recording implementation overrides this with its own history.
    open spec fn levels(&self) -> Seq<bool> {
        Seq::empty()
    }

    fn set_low(&mut self) -> (result: Result<(), Self::Error>)
        ensures
            final(self).levels() == old(self).levels().push(false),
    ;

    fn set_high(&mut self) -> (result: Result<(), Self::Error>)
        ensures
            final(self).levels() == old(self).levels().push(true),
    ;
}

/// A blocking pause of roughly the requested number of microseconds.
pub trait DelaySource {
    fn delay_us(&mut self, us: u16);
}

/// A refresh failure, wrapping the collaborator's native error.
#[derive(Debug)]
pub enum Error<SpiError, PinError> {
    /// The transport rejected the byte write.
    Spi(SpiError),
    /// The strobe output rejected a level change.
    Pin(PinError),
}

/// The one-hot digit select mask shifted out for a cursor position:
/// `1 << (3 - cursor)`, so cursor 0 (leftmost digit) selects bit 3.
pub open spec fn select_mask(cursor: int) -> u8 {
    if cursor == 0 {
        0b0000_1000
    } else if cursor == 1 {
        0b0000_0100
    } else if cursor == 2 {
        0b0000_0010
    } else {
        0b0000_0001
    }
}

/// The 4-slot buffer contents after writing a character sequence: the first
/// four characters encoded left to right, trailing slots blank when the
/// sequence is shorter, characters past the fourth ignored.
pub open spec fn encoded_window(text: Seq<char>) -> Seq<u8> {
    Seq::new(4, |i: int| if i < text.len() { char_segments(text[i]) } else { BLANK })
}

/// Clamp a number to the largest value four digits can show.
pub open spec fn clamped(num: int) -> int {
    if num > 9999 {
        9999
    } else {
        num
    }
}

/// The 4-slot buffer contents after writing a number: the four decimal
/// digits of the clamped value, thousands first, with leading zeros kept.
pub open spec fn number_codes(num: int) -> Seq<u8> {
    let n = clamped(num);
    seq![
        digit_segments(n / 1000),
        digit_segments((n / 100) % 10),
        digit_segments((n / 10) % 10),
        digit_segments(n % 10),
    ]
}

/// The exact two-byte payload one refresh call hands the transport:
/// the selected slot's segment pattern first, the digit select mask second.
pub open spec fn refresh_payload(buffer: Seq<u8>, cursor: int) -> Seq<u8> {
    seq![buffer[cursor], select_mask(cursor)]
}

/// The driver: back buffer, digit cursor, and the owned collaborators.
pub struct SegmentDisplay<SPI, PIN> {
    back_buffer: [u8; 4],
    spi: SPI,
    latch_pin: PIN,
    current_digit: usize,
}

impl<SPI, PIN> SegmentDisplay<SPI, PIN> where SPI: Transport, PIN: StrobeOutput {
    /// The back buffer: four encoded segment patterns, index 0 leftmost.
    pub closed spec fn buffer(&self) -> Seq<u8> {
        self.back_buffer@
    }

    /// The digit the next refresh call will display.
    pub closed spec fn cursor(&self) -> int {
        self.current_digit as int
    }

    /// The owned transport collaborator.
    pub closed spec fn transport(&self) -> SPI {
        self.spi
    }

    /// The owned strobe output collaborator.
    pub closed spec fn strobe(&self) -> PIN {
        self.latch_pin
    }

    /// The cursor always stays on one of the four digits.
    pub open spec fn wf(&self) -> bool {
        0 <= self.cursor() < 4
    }

    /// Create a new SegmentDisplay owning its transport and strobe output,
    /// with a blank buffer and the cursor on the leftmost digit.
    pub fn new(spi: SPI, latch_pin: PIN) -> (display: Self)
        ensures
            display.wf(),
            display.cursor() == 0,
            display.buffer() =~= seq![BLANK, BLANK, BLANK, BLANK],
            display.transport() == spi,
            display.strobe() == latch_pin,
    {
        Self { back_buffer: [BLANK; 4], spi, latch_pin, current_digit: 0 }
    }

    /// Release the SegmentDisplay, handing the transport and the strobe
    /// output back to the caller unchanged.
    pub fn release(self) -> (parts: (SPI, PIN))
        ensures
            parts.0 == self.transport(),
            parts.1 == self.strobe(),
    {
        (self.spi, self.latch_pin)
    }

    /// Write four characters to the display, overwriting every buffer slot
    /// left to right. Pure buffer mutation: no I/O, cannot fail.
    pub fn write_chars(&mut self, buf: [char; 4])
        ensures
            final(self).buffer() =~= encoded_window(buf@),
            final(self).cursor() == old(self).cursor(),
            final(self).transport() == old(self).transport(),
            final(self).strobe() == old(self).strobe(),
    {
        let mut i: usize = 0;
        while i < 4
            invariant
                i <= 4,
                forall|j: int| 0 <= j < i ==> self.buffer()[j] == char_segments(buf@[j]),
                self.cursor() == old(self).cursor(),
                self.transport() == old(self).transport(),
                self.strobe() == old(self).strobe(),
            decreases 4 - i,
        {
            let code = char_to_segment_code(buf[i]);
            let ghost prev = self.buffer();
            self.back_buffer[i] = code;
            proof {
                assert(self.buffer() =~= prev.update(i as int, code));
            }
            i += 1;
        }
    }

    /// Write a string to the display: the first four characters encoded left
    /// to right, trailing slots blank when the string is shorter, characters
    /// past the fourth silently ignored.
    pub fn write_str(&mut self, s: &str)
        ensures
            final(self).buffer() =~= encoded_window(s@),
            final(self).cursor() == old(self).cursor(),
            final(self).transport() == old(self).transport(),
            final(self).strobe() == old(self).strobe(),
    {
        let len = s.unicode_len();
        let mut i: usize = 0;
        while i < 4
            invariant
                i <= 4,
                len == s@.len(),
                forall|j: int| 0 <= j < i ==> self.buffer()[j] == encoded_window(s@)[j],
                self.cursor() == old(self).cursor(),
                self.transport() == old(self).transport(),
                self.strobe() == old(self).strobe(),
            decreases 4 - i,
        {
            if i < len {
                self.back_buffer[i] = char_to_segment_code(s.get_char(i));
            } else {
                self.back_buffer[i] = BLANK;
            }
            i += 1;
        }
    }

    /// Write a number to the display: values above 9999 are clamped, and the
    /// four decimal digits of the result fill the buffer thousands first,
    /// with leading zeros kept.
    pub fn write_number(&mut self, num: usize)
        ensures
            final(self).buffer() =~= number_codes(num as int),
            final(self).cursor() == old(self).cursor(),
            final(self).transport() == old(self).transport(),
            final(self).strobe() == old(self).strobe(),
    {
        let n = if num > 9999 { 9999 } else { num };
        self.back_buffer[0] = digit_to_segment_code((n / 1000) as u8);
        self.back_buffer[1] = digit_to_segment_code(((n / 100) % 10) as u8);
        self.back_buffer[2] = digit_to_segment_code(((n / 10) % 10) as u8);
        self.back_buffer[3] = digit_to_segment_code((n % 10) as u8);
    }

    /// One multiplexed output cycle: advance the cursor, then drop the
    /// strobe, shift the displayed slot's pattern and its select mask out
    /// over the transport, and raise the strobe to latch them.
    ///
    /// The cursor advances before any I/O, so it has moved on even when an
    /// error is returned. A strobe failure is reported as `Error::Pin`, a
    /// transport failure as `Error::Spi`, each wrapping the native error;
    /// the first failure short-circuits the rest of the cycle.
    pub fn refresh(&mut self) -> (result: Result<(), Error<SPI::Error, PIN::Error>>)
        requires
            old(self).wf(),
        ensures
            final(self).wf(),
            final(self).buffer() == old(self).buffer(),
            final(self).cursor() == (old(self).cursor() + 1) % 4,
            (match result {
                Ok(_) =>
                    final(self).transport().writes()
                        =~= old(self).transport().writes().push(refresh_payload(old(self).buffer(), old(self).cursor()))
                    && final(self).strobe().levels() =~= old(self).strobe().levels() + seq![false, true],
                Err(Error::Spi(_)) =>
                    final(self).transport().writes()
                        =~= old(self).transport().writes().push(refresh_payload(old(self).buffer(), old(self).cursor()))
                    && final(self).strobe().levels() =~= old(self).strobe().levels().push(false),
                Err(Error::Pin(_)) =>
                    (final(self).transport() == old(self).transport()
                        && final(self).strobe().levels() =~= old(self).strobe().levels().push(false))
                    || (final(self).transport().writes()
                            =~= old(self).transport().writes().push(refresh_payload(old(self).buffer(), old(self).cursor()))
                        && final(self).strobe().levels() =~= old(self).strobe().levels() + seq![false, true]),
            }),
    {
        let segments_and_select: [u8; 2] = [
            self.back_buffer[self.current_digit],
            select_mask_code(self.current_digit),
        ];
        proof {
            assert(segments_and_select@ =~= refresh_payload(self.buffer(), self.cursor()));
        }

        self.current_digit = (self.current_digit + 1) % 4;

        match self.latch_pin.set_low() {
            Ok(_) => {},
            Err(e) => {
                return Err(Error::Pin(e));
            },
        }

        match self.spi.write(segments_and_select.as_slice()) {
            Ok(_) => {},
            Err(e) => {
                return Err(Error::Spi(e));
            },
        }

        match self.latch_pin.set_high() {
            Ok(_) => {},
            Err(e) => {
                return Err(Error::Pin(e));
            },
        }

        Ok(())
    }

    /// Exactly `refresh`, with a caller-supplied pause between the transport
    /// write and the latching strobe edge, for latches that need settling
    /// time. Same cursor and error behaviour as `refresh`.
    pub fn refresh_with_delay<DELAY>(&mut self, delay: &mut DELAY) -> (result: Result<
        (),
        Error<SPI::Error, PIN::Error>,
    >) where DELAY: DelaySource
        requires
            old(self).wf(),
        ensures
            final(self).wf(),
            final(self).buffer() == old(self).buffer(),
            final(self).cursor() == (old(self).cursor() + 1) % 4,
            (match result {
                Ok(_) =>
                    final(self).transport().writes()
                        =~= old(self).transport().writes().push(refresh_payload(old(self).buffer(), old(self).cursor()))
                    && final(self).strobe().levels() =~= old(self).strobe().levels() + seq![false, true],
                Err(Error::Spi(_)) =>
                    final(self).transport().writes()
                        =~= old(self).transport().writes().push(refresh_payload(old(self).buffer(), old(self).cursor()))
                    && final(self).strobe().levels() =~= old(self).strobe().levels().push(false),
                Err(Error::Pin(_)) =>
                    (final(self).transport() == old(self).transport()
                        && final(self).strobe().levels() =~= old(self).strobe().levels().push(false))
                    || (final(self).transport().writes()
                            =~= old(self).transport().writes().push(refresh_payload(old(self).buffer(), old(self).cursor()))
                        && final(self).strobe().levels() =~= old(self).strobe().levels() + seq![false, true]),
            }),
    {
        let segments_and_select: [u8; 2] = [
            self.back_buffer[self.current_digit],
            select_mask_code(self.current_digit),
        ];
        proof {
            assert(segments_and_select@ =~= refresh_payload(self.buffer(), self.cursor()));
        }

        self.current_digit = (self.current_digit + 1) % 4;

        match self.latch_pin.set_low() {
            Ok(_) => {},
            Err(e) => {
                return Err(Error::Pin(e));
            },
        }

        match self.spi.write(segments_and_select.as_slice()) {
            Ok(_) => {},
            Err(e) => {
                return Err(Error::Spi(e));
            },
        }

        delay.delay_us(100);

        match self.latch_pin.set_high() {
            Ok(_) => {},
            Err(e) => {
                return Err(Error::Pin(e));
            },
        }

        Ok(())
    }
}

/// Look up the one-hot select mask for a digit position.
fn select_mask_code(digit: usize) -> (mask: u8)
    requires
        digit < 4,
    ensures
        mask == select_mask(digit as int),
{
    match digit {
        0 => 0b0000_1000,
        1 => 0b0000_0100,
        2 => 0b0000_0010,
        _ => 0b0000_0001,
    }
}

/// Clamping law: every number above 9999 fills the buffer exactly as 9999
/// does.
pub proof fn lemma_number_clamped(num: int)
    requires
        num > 9999,
    ensures
        number_codes(num) == number_codes(9999),
{
}

/// Strict time-division law: every select mask drives exactly one digit.
/// The mask is never zero and clearing its lowest set bit leaves nothing,
/// so two digits can never be lit in one refresh cycle (no ghosting).
pub proof fn lemma_select_mask_one_hot(cursor: int)
    ensures
        select_mask(cursor) != 0,
        select_mask(cursor) & ((select_mask(cursor) - 1) as u8) == 0,
{
    assert(8u8 & 7u8 == 0) by (bit_vector);
    assert(4u8 & 3u8 == 0) by (bit_vector);
    assert(2u8 & 1u8 == 0) by (bit_vector);
    assert(1u8 & 0u8 == 0) by (bit_vector);
}

/// Multiplexing cycle law: the four cursor positions map to the one-hot
/// select masks 0b1000, 0b0100, 0b0010, 0b0001 in that order, and four
/// cursor advances return the cursor to where it started, so a fifth
/// refresh call repeats the first.
pub proof fn lemma_select_cycle(cursor: int)
    requires
        0 <= cursor < 4,
    ensures
        select_mask(0) == 0b0000_1000,
        select_mask(1) == 0b0000_0100,
        select_mask(2) == 0b0000_0010,
        select_mask(3) == 0b0000_0001,
        ((((cursor + 1) % 4 + 1) % 4 + 1) % 4 + 1) % 4 == cursor,
{
}

} // verus!


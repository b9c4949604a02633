//! A platform agnostic driver for 4-digit 7-segment displays connected to
//! shift registers behind a byte-oriented serial bus and a latch line.
//!
//! The driver keeps a 4-slot back buffer of encoded segment patterns and a
//! rotating digit cursor. Buffer mutations (`write_str`, `write_chars`,
//! `write_number`) are pure and instant; each `refresh` call shifts one
//! digit's pattern and its one-hot select mask out over the transport,
//! multiplexing the four digits across successive calls.

pub mod display;
pub mod encoding;

pub use display::DelaySource;
pub use display::Error;
pub use display::SegmentDisplay;
pub use display::StrobeOutput;
pub use display::Transport;
pub use encoding::char_to_segment_code;
pub use encoding::digit_to_segment_code;

//! Control logic of an interactive audio guide: configuration of the
//! exhibits, the recordings they play, the MP3 decoding pipeline that turns
//! a recording into packets of DAC samples, the sample clock of the player,
//! button and mode debouncing, the LED bank, and the guide's state machine.

pub mod config;
pub mod mp3;
pub mod packet;
pub mod reader;
pub mod samples;
pub mod audio;
pub mod playback;
pub mod buttons;
pub mod leds;
pub mod guide;

//! Session core of a serial-port terminal: key dispatch, the transmit and
//! receive display pipelines, and the cursor blink timer.
pub mod app;
pub mod codec;
pub mod cursor;
pub mod key;
pub mod mode;

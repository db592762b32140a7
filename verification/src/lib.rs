//! Core logic of a screen color picker: a magnified, circular, live preview
//! of the pixels under the pointer, rendered into a cursor image, and the
//! state machine that tracks pointer events until a pixel is picked.
//!
//! Everything here is pure computation over plain values; the display-server
//! plumbing (capture, cursor installation, pointer grabbing) lives outside
//! the library and hands buffers and events in as arguments.

pub mod capture;
pub mod color;
pub mod draw;
pub mod pixel;
pub mod track;
pub mod util;

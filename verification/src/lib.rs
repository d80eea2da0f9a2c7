//! Captures a region of a graphical display - the full screen, a named
//! window, or the owning console window - into an in-memory bitmap, and
//! serializes that bitmap into a standard raster image byte stream.
//!
//! The capture pipeline is a verified state machine: from the request flags
//! it hands its driver one operating-system call at a time (open a surface,
//! measure a window, create a buffer, copy, read pixels) and consumes the
//! answers, and its contract states the exact byte stream, or the exact
//! error, produced for every possible sequence of answers. The bitmap
//! encoder, the window-resolution policy and the enumeration decisions are
//! verified down to the byte; the operating-system calls themselves live in
//! the unverified driver around the library.

pub mod bitmap;
pub mod capture;
pub mod enumerate;
pub mod error;
pub mod geometry;

pub use capture::capture_as_image;

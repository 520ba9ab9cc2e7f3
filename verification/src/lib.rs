//! Deterministic synthesis of composite timestamp values from finite byte
//! buffers.
//!
//! The library turns an opaque byte buffer into a valid timestamp in three
//! steps, always in the same order: a civil (zone-less) date-and-time value
//! is drawn from the front of the buffer, a zone-specific offset is drawn
//! from the bytes that remain, and the two are paired into one composite
//! value. The whole pipeline is a pure function of the buffer's contents, so
//! equal buffers always synthesize equal timestamps, which makes the library
//! suitable as a value source for fuzzing and property-based testing.

pub mod datetime;
pub mod naive;
pub mod offset;
pub mod synth;
pub mod unstructured;

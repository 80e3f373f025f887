//! Decoder for callback arguments crossing a native-to-host foreign-function
//! bridge.
//!
//! When native code invokes a callback registered by the host language, each
//! argument arrives as an untyped machine word or pointer. A [`shape::Shape`]
//! declared at registration time says how to interpret it. The decoder turns
//! the word into a tagged [`decoded::Decoded`] value: directly for word-sized
//! scalars, or by planning a memory read (strings, arrays, structs) that the
//! unverified embedding performs before handing the bytes back to the verified
//! finishing functions.

pub mod decode;
pub mod decoded;
pub mod laws;
pub mod shape;
pub mod tags;

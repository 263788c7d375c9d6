//! A verified emulator core for a small 16-bit instruction-set computer:
//! a ten-slot register file, a flat 65536-word memory, a fetch-decode-execute
//! step with bit-exact instruction semantics, and a trap mechanism for
//! character I/O modelled over in-memory byte streams.

pub mod bits;
pub mod flags;
pub mod console;
pub mod isa;
pub mod machine;
pub mod semantics;
pub mod exec;
pub mod laws;

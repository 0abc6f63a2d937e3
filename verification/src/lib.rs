//! A MessagePack encoder.
//!
//! The crate writes values in the MessagePack wire format: it knows the tag
//! byte of every form, picks the shortest form for a number or a length,
//! and offers an emitter that application values drive to serialise
//! themselves. Every writer says in its contract which bytes reach the sink
//! and, when the sink fails, in which phase of the value it failed.

pub mod buffer;
pub mod encode;
pub mod endian;
pub mod error;
pub mod format;
pub mod marker;
pub mod serialize;
pub mod sink;

pub use buffer::BoundedBuf;
pub use encode::write_array_len;
pub use encode::write_bin_len;
pub use encode::write_bool;
pub use encode::write_ext_meta;
pub use encode::write_f32_bits;
pub use encode::write_f64_bits;
pub use encode::write_i16;
pub use encode::write_i32;
pub use encode::write_i64;
pub use encode::write_i8;
pub use encode::write_map_len;
pub use encode::write_nfix;
pub use encode::write_nil;
pub use encode::write_pfix;
pub use encode::write_sint;
pub use encode::write_str_len;
pub use encode::write_u16;
pub use encode::write_u32;
pub use encode::write_u64;
pub use encode::write_u8;
pub use encode::write_uint;
pub use error::FixedValueWriteError;
pub use error::MarkerWriteError;
pub use error::ValueWriteError;
pub use error::WriteError;
pub use marker::Marker;
pub use serialize::Encoder;
pub use sink::Sink;

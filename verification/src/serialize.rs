//! The emitter that application values drive to serialise themselves.
//!
//! A value calls one method per scalar, and for a composite one method
//! that writes the header and then runs a continuation, which in turn
//! emits the parts in order. Nothing is buffered: what a method writes is
//! in the sink when it returns, and a failure leaves there what had gone
//! out before it.
//!
//! The contracts speak of the sink behind the emitter, `wr`. A method that
//! writes a value by itself says which bytes the sink took and how the
//! value ended. A method that runs a continuation says in which state the
//! continuation received the emitter, named `e` there, and that the method
//! ends where the continuation ended and returns what it returned. Every
//! method also says that the emitter still writes to the sink it was made
//! for: the value that sink has in the end is the one it was going to have.

use crate::encode::write_array_len;
use crate::encode::write_bool;
use crate::encode::write_f32_bits;
use crate::encode::write_f64_bits;
use crate::encode::write_map_len;
use crate::encode::write_nil;
use crate::encode::write_sint;
use crate::encode::write_str_len;
use crate::encode::write_uint;
use crate::error::lemma_single_byte_value;
use crate::error::lemma_value_cut_short;
use crate::error::lemma_value_then_data;
use crate::error::value_written;
use crate::error::FixedValueWriteError;
use crate::error::Outcome;
use crate::error::ValueWriteError;
use crate::error::WriteError;
use crate::format::array_len_encoding;
use crate::format::bool_encoding;
use crate::format::f32_encoding;
use crate::format::f64_encoding;
use crate::format::map_len_encoding;
use crate::format::nil_encoding;
use crate::format::sint_encoding;
use crate::format::str_encoding;
use crate::format::str_len_encoding;
use crate::format::uint_encoding;
use crate::format::wire_len;
use crate::sink::Sink;
use vstd::prelude::*;
use vstd::std_specs::convert::FromSpecImpl;

verus! {

/// Why an emitter method failed: the sink failed, and this is the phase
/// of the value at hand in which it did.
#[derive(Debug)]
pub enum Error {
    /// The sink failed on a value of a single byte.
    InvalidFixedValueWrite(WriteError),
    /// The sink failed on the tag byte of a value: nothing of it went out.
    InvalidMarkerWrite(WriteError),
    /// The sink failed behind the tag byte: the value went out in part.
    InvalidDataWrite(WriteError),
}

impl From<FixedValueWriteError> for Error {
    fn from(err: FixedValueWriteError) -> (r: Error) {
        Error::InvalidFixedValueWrite(err.0)
    }
}

impl FromSpecImpl<FixedValueWriteError> for Error {
    open spec fn obeys_from_spec() -> bool {
        true
    }

    open spec fn from_spec(err: FixedValueWriteError) -> Error {
        Error::InvalidFixedValueWrite(err.0)
    }
}

impl From<ValueWriteError> for Error {
    fn from(err: ValueWriteError) -> (r: Error) {
        match err {
            ValueWriteError::InvalidMarkerWrite(err) => Error::InvalidMarkerWrite(err),
            ValueWriteError::InvalidDataWrite(err) => Error::InvalidDataWrite(err),
        }
    }
}

impl FromSpecImpl<ValueWriteError> for Error {
    open spec fn obeys_from_spec() -> bool {
        true
    }

    open spec fn from_spec(err: ValueWriteError) -> Error {
        match err {
            ValueWriteError::InvalidMarkerWrite(err) => Error::InvalidMarkerWrite(err),
            ValueWriteError::InvalidDataWrite(err) => Error::InvalidDataWrite(err),
        }
    }
}

impl Error {
    /// The phase that the error names, and the failure it carries.
    pub open spec fn outcome(self) -> Outcome {
        match self {
            Error::InvalidFixedValueWrite(err) => Outcome::MarkerFailed(err.0),
            Error::InvalidMarkerWrite(err) => Outcome::MarkerFailed(err.0),
            Error::InvalidDataWrite(err) => Outcome::DataFailed(err.0),
        }
    }
}

/// How an emitter method that returned `r` ended with its value.
pub open spec fn emitted(r: Result<(), Error>) -> Outcome {
    match r {
        Ok(_) => Outcome::Written,
        Err(err) => err.outcome(),
    }
}

/// `String::push`: the string ends up one character longer, the new one
/// last.
pub assume_specification[ String::push ](s: &mut String, ch: char)
    ensures
        final(s)@ == old(s)@.push(ch),
;

/// Serialises into the sink it was made for.
pub struct Encoder<'a, W: Sink> {
    pub wr: &'a mut W,
}

impl<'a, W: Sink> Encoder<'a, W> {
    /// An emitter that writes to `wr`.
    pub fn new(wr: &'a mut W) -> (r: Encoder<'a, W>)
        ensures
            *r.wr == *old(wr),
            *final(r.wr) == *final(wr),
    {
        Encoder { wr: wr }
    }

    /// Emits the empty value.
    pub fn emit_nil(&mut self) -> (r: Result<(), Error>)
        ensures
            value_written(old(self).wr.state(), final(self).wr.state(), nil_encoding(), emitted(r)),
            r matches Err(err) ==> err is InvalidFixedValueWrite,
            *final(final(self).wr) == *final(old(self).wr),
    {
        let ghost pre = self.wr.state();
        match write_nil(self.wr) {
            Ok(()) => {
                proof {
                    lemma_single_byte_value(pre, self.wr.state(), 0xc0u8, None);
                }
                Ok(())
            },
            Err(err) => {
                proof {
                    lemma_single_byte_value(pre, self.wr.state(), 0xc0u8, Some((err.0).0));
                }
                Err(Error::from(err))
            },
        }
    }

    /// Emits a truth value.
    pub fn emit_bool(&mut self, val: bool) -> (r: Result<(), Error>)
        ensures
            value_written(
                old(self).wr.state(),
                final(self).wr.state(),
                bool_encoding(val),
                emitted(r),
            ),
            r matches Err(err) ==> err is InvalidFixedValueWrite,
            *final(final(self).wr) == *final(old(self).wr),
    {
        let ghost pre = self.wr.state();
        match write_bool(self.wr, val) {
            Ok(()) => {
                proof {
                    lemma_single_byte_value(pre, self.wr.state(), bool_encoding(val)[0], None);
                }
                Ok(())
            },
            Err(err) => {
                proof {
                    lemma_single_byte_value(
                        pre,
                        self.wr.state(),
                        bool_encoding(val)[0],
                        Some((err.0).0),
                    );
                }
                Err(Error::from(err))
            },
        }
    }

    /// Emits an unsigned number in the shortest form that holds it.
    pub fn emit_u64(&mut self, val: u64) -> (r: Result<(), Error>)
        ensures
            value_written(
                old(self).wr.state(),
                final(self).wr.state(),
                uint_encoding(val),
                emitted(r),
            ),
            r matches Err(err) ==> !(err is InvalidFixedValueWrite),
            *final(final(self).wr) == *final(old(self).wr),
    {
        match write_uint(self.wr, val) {
            Ok(_) => Ok(()),
            Err(err) => Err(Error::from(err)),
        }
    }

    /// Emits a signed number in the form the signed selector picks.
    pub fn emit_i64(&mut self, val: i64) -> (r: Result<(), Error>)
        ensures
            value_written(
                old(self).wr.state(),
                final(self).wr.state(),
                sint_encoding(val),
                emitted(r),
            ),
            r matches Err(err) ==> !(err is InvalidFixedValueWrite),
            *final(final(self).wr) == *final(old(self).wr),
    {
        match write_sint(self.wr, val) {
            Ok(_) => Ok(()),
            Err(err) => Err(Error::from(err)),
        }
    }

    /// Emits an unsigned number as `emit_u64` does: the width it comes in
    /// plays no part.
    pub fn emit_u8(&mut self, val: u8) -> (r: Result<(), Error>)
        ensures
            value_written(
                old(self).wr.state(),
                final(self).wr.state(),
                uint_encoding(val as u64),
                emitted(r),
            ),
            r matches Err(err) ==> !(err is InvalidFixedValueWrite),
            *final(final(self).wr) == *final(old(self).wr),
    {
        self.emit_u64(val as u64)
    }

    /// Emits an unsigned number as `emit_u64` does: the width it comes in
    /// plays no part.
    pub fn emit_u16(&mut self, val: u16) -> (r: Result<(), Error>)
        ensures
            value_written(
                old(self).wr.state(),
                final(self).wr.state(),
                uint_encoding(val as u64),
                emitted(r),
            ),
            r matches Err(err) ==> !(err is InvalidFixedValueWrite),
            *final(final(self).wr) == *final(old(self).wr),
    {
        self.emit_u64(val as u64)
    }

    /// Emits an unsigned number as `emit_u64` does: the width it comes in
    /// plays no part.
    pub fn emit_u32(&mut self, val: u32) -> (r: Result<(), Error>)
        ensures
            value_written(
                old(self).wr.state(),
                final(self).wr.state(),
                uint_encoding(val as u64),
                emitted(r),
            ),
            r matches Err(err) ==> !(err is InvalidFixedValueWrite),
            *final(final(self).wr) == *final(old(self).wr),
    {
        self.emit_u64(val as u64)
    }

    /// Emits an unsigned number as `emit_u64` does: the width it comes in
    /// plays no part.
    pub fn emit_usize(&mut self, val: usize) -> (r: Result<(), Error>)
        ensures
            value_written(
                old(self).wr.state(),
                final(self).wr.state(),
                uint_encoding(val as u64),
                emitted(r),
            ),
            r matches Err(err) ==> !(err is InvalidFixedValueWrite),
            *final(final(self).wr) == *final(old(self).wr),
    {
        self.emit_u64(val as u64)
    }

    /// Emits a signed number as `emit_i64` does: the width it comes in
    /// plays no part.
    pub fn emit_i8(&mut self, val: i8) -> (r: Result<(), Error>)
        ensures
            value_written(
                old(self).wr.state(),
                final(self).wr.state(),
                sint_encoding(val as i64),
                emitted(r),
            ),
            r matches Err(err) ==> !(err is InvalidFixedValueWrite),
            *final(final(self).wr) == *final(old(self).wr),
    {
        self.emit_i64(val as i64)
    }

    /// Emits a signed number as `emit_i64` does: the width it comes in
    /// plays no part.
    pub fn emit_i16(&mut self, val: i16) -> (r: Result<(), Error>)
        ensures
            value_written(
                old(self).wr.state(),
                final(self).wr.state(),
                sint_encoding(val as i64),
                emitted(r),
            ),
            r matches Err(err) ==> !(err is InvalidFixedValueWrite),
            *final(final(self).wr) == *final(old(self).wr),
    {
        self.emit_i64(val as i64)
    }

    /// Emits a signed number as `emit_i64` does: the width it comes in
    /// plays no part.
    pub fn emit_i32(&mut self, val: i32) -> (r: Result<(), Error>)
        ensures
            value_written(
                old(self).wr.state(),
                final(self).wr.state(),
                sint_encoding(val as i64),
                emitted(r),
            ),
            r matches Err(err) ==> !(err is InvalidFixedValueWrite),
            *final(final(self).wr) == *final(old(self).wr),
    {
        self.emit_i64(val as i64)
    }

    /// Emits a signed number as `emit_i64` does: the width it comes in
    /// plays no part.
    pub fn emit_isize(&mut self, val: isize) -> (r: Result<(), Error>)
        ensures
            value_written(
                old(self).wr.state(),
                final(self).wr.state(),
                sint_encoding(val as i64),
                emitted(r),
            ),
            r matches Err(err) ==> !(err is InvalidFixedValueWrite),
            *final(final(self).wr) == *final(old(self).wr),
    {
        self.emit_i64(val as i64)
    }

    /// Emits a single-precision number, handed over as its 32 bits.
    pub fn emit_f32_bits(&mut self, bits: u32) -> (r: Result<(), Error>)
        ensures
            value_written(
                old(self).wr.state(),
                final(self).wr.state(),
                f32_encoding(bits),
                emitted(r),
            ),
            r matches Err(err) ==> !(err is InvalidFixedValueWrite),
            *final(final(self).wr) == *final(old(self).wr),
    {
        match write_f32_bits(self.wr, bits) {
            Ok(()) => Ok(()),
            Err(err) => Err(Error::from(err)),
        }
    }

    /// Emits a double-precision number, handed over as its 64 bits.
    pub fn emit_f64_bits(&mut self, bits: u64) -> (r: Result<(), Error>)
        ensures
            value_written(
                old(self).wr.state(),
                final(self).wr.state(),
                f64_encoding(bits),
                emitted(r),
            ),
            r matches Err(err) ==> !(err is InvalidFixedValueWrite),
            *final(final(self).wr) == *final(old(self).wr),
    {
        match write_f64_bits(self.wr, bits) {
            Ok(()) => Ok(()),
            Err(err) => Err(Error::from(err)),
        }
    }

    /// Emits a character as the string that holds just that character.
    pub fn emit_char(&mut self, val: char) -> (r: Result<(), Error>)
        ensures
            value_written(
                old(self).wr.state(),
                final(self).wr.state(),
                str_encoding(seq![val]),
                emitted(r),
            ),
            r matches Err(err) ==> !(err is InvalidFixedValueWrite),
            *final(final(self).wr) == *final(old(self).wr),
    {
        let mut buf = String::new();
        buf.push(val);
        assert(buf@ =~= seq![val]);
        self.emit_str(buf.as_str())
    }

    /// Emits a string: the header for the number of bytes of its UTF-8
    /// form, then those bytes. A failure on the bytes is a failure in the
    /// data of the string.
    pub fn emit_str(&mut self, val: &str) -> (r: Result<(), Error>)
        ensures
            value_written(
                old(self).wr.state(),
                final(self).wr.state(),
                str_encoding(val@),
                emitted(r),
            ),
            r matches Err(err) ==> !(err is InvalidFixedValueWrite),
            *final(final(self).wr) == *final(old(self).wr),
    {
        let ghost pre = self.wr.state();
        let ghost body = vstd::utf8::encode_utf8(val@);
        let len = low_u32(val.len());
        let ghost head = str_len_encoding(len);
        match write_str_len(self.wr, len) {
            Err(err) => {
                proof {
                    lemma_value_cut_short(pre, self.wr.state(), head, body, err.outcome());
                }
                return Err(Error::from(err));
            },
            Ok(_) => {},
        }
        let ghost mid = self.wr.state();
        match self.wr.write_bytes(val.as_bytes()) {
            Ok(()) => {
                proof {
                    lemma_value_then_data(pre, mid, self.wr.state(), head, body, None);
                }
                Ok(())
            },
            Err(err) => {
                proof {
                    lemma_value_then_data(pre, mid, self.wr.state(), head, body, Some(err));
                }
                Err(Error::InvalidDataWrite(WriteError::from(err)))
            },
        }
    }

    /// Emits the absent case of an optional value: the empty value.
    pub fn emit_option_none(&mut self) -> (r: Result<(), Error>)
        ensures
            value_written(old(self).wr.state(), final(self).wr.state(), nil_encoding(), emitted(r)),
            r matches Err(err) ==> err is InvalidFixedValueWrite,
            *final(final(self).wr) == *final(old(self).wr),
    {
        self.emit_nil()
    }

    /// Emits a record of `len` fields: the header of an array of `len`
    /// elements, then whatever `f` emits. Field names are not written.
    pub fn emit_struct<F>(&mut self, _name: &str, len: usize, f: F) -> (r: Result<(), Error>) where
        F: FnOnce(&mut Self) -> Result<(), Error>,

        requires
            forall|e: &mut Self|
                old(self).wr.state().took(e.wr.state(), array_len_encoding(wire_len(len)))
                    && *final(e.wr) == *final(old(self).wr) ==> call_requires(f, (e,)),
        ensures
            ({
                ||| {
                    &&& r matches Err(err) && !(err is InvalidFixedValueWrite)
                    &&& value_written(
                        old(self).wr.state(),
                        final(self).wr.state(),
                        array_len_encoding(wire_len(len)),
                        emitted(r),
                    )
                    &&& *final(final(self).wr) == *final(old(self).wr)
                }
                ||| exists|e: &mut Self|
                    {
                        &&& old(self).wr.state().took(
                            e.wr.state(),
                            array_len_encoding(wire_len(len)),
                        )
                        &&& *final(e.wr) == *final(old(self).wr)
                        &&& *final(e) == *final(self)
                        &&& call_ensures(f, (e,), r)
                    }
            }),
    {
        self.emit_tuple(len, f)
    }

    /// Emits one field of a record: whatever `f` emits.
    pub fn emit_struct_field<F>(&mut self, _name: &str, _idx: usize, f: F) -> (r: Result<
        (),
        Error,
    >) where
        F: FnOnce(&mut Self) -> Result<(), Error>,

        requires
            forall|e: &mut Self| *e == *old(self) ==> call_requires(f, (e,)),
        ensures
            exists|e: &mut Self|
                *e == *old(self) && *final(e) == *final(self) && call_ensures(f, (e,), r),
    {
        f(self)
    }

    /// Emits a tuple of `len` parts: the header of an array of `len`
    /// elements, then whatever `f` emits. If the header fails, `f` is not run.
    pub fn emit_tuple<F>(&mut self, len: usize, f: F) -> (r: Result<(), Error>) where
        F: FnOnce(&mut Self) -> Result<(), Error>,

        requires
            forall|e: &mut Self|
                old(self).wr.state().took(e.wr.state(), array_len_encoding(wire_len(len)))
                    && *final(e.wr) == *final(old(self).wr) ==> call_requires(f, (e,)),
        ensures
            ({
                ||| {
                    &&& r matches Err(err) && !(err is InvalidFixedValueWrite)
                    &&& value_written(
                        old(self).wr.state(),
                        final(self).wr.state(),
                        array_len_encoding(wire_len(len)),
                        emitted(r),
                    )
                    &&& *final(final(self).wr) == *final(old(self).wr)
                }
                ||| exists|e: &mut Self|
                    {
                        &&& old(self).wr.state().took(
                            e.wr.state(),
                            array_len_encoding(wire_len(len)),
                        )
                        &&& *final(e.wr) == *final(old(self).wr)
                        &&& *final(e) == *final(self)
                        &&& call_ensures(f, (e,), r)
                    }
            }),
    {
        let ghost pre = self.wr.state();
        let ghost head = array_len_encoding(wire_len(len));
        match write_array_len(self.wr, low_u32(len)) {
            Err(err) => Err(Error::from(err)),
            Ok(_) => {
                assert(pre.took(self.wr.state(), head));
                f(self)
            },
        }
    }

    /// Emits one part of a tuple: whatever `f` emits.
    pub fn emit_tuple_arg<F>(&mut self, _idx: usize, f: F) -> (r: Result<(), Error>) where
        F: FnOnce(&mut Self) -> Result<(), Error>,

        requires
            forall|e: &mut Self| *e == *old(self) ==> call_requires(f, (e,)),
        ensures
            exists|e: &mut Self|
                *e == *old(self) && *final(e) == *final(self) && call_ensures(f, (e,), r),
    {
        f(self)
    }

    /// Emits a named tuple of `len` parts as `emit_tuple` does.
    pub fn emit_tuple_struct<F>(&mut self, _name: &str, len: usize, f: F) -> (r: Result<
        (),
        Error,
    >) where
        F: FnOnce(&mut Self) -> Result<(), Error>,

        requires
            forall|e: &mut Self|
                old(self).wr.state().took(e.wr.state(), array_len_encoding(wire_len(len)))
                    && *final(e.wr) == *final(old(self).wr) ==> call_requires(f, (e,)),
        ensures
            ({
                ||| {
                    &&& r matches Err(err) && !(err is InvalidFixedValueWrite)
                    &&& value_written(
                        old(self).wr.state(),
                        final(self).wr.state(),
                        array_len_encoding(wire_len(len)),
                        emitted(r),
                    )
                    &&& *final(final(self).wr) == *final(old(self).wr)
                }
                ||| exists|e: &mut Self|
                    {
                        &&& old(self).wr.state().took(
                            e.wr.state(),
                            array_len_encoding(wire_len(len)),
                        )
                        &&& *final(e.wr) == *final(old(self).wr)
                        &&& *final(e) == *final(self)
                        &&& call_ensures(f, (e,), r)
                    }
            }),
    {
        self.emit_tuple(len, f)
    }

    /// Emits one part of a named tuple: whatever `f` emits.
    pub fn emit_tuple_struct_arg<F>(&mut self, _idx: usize, f: F) -> (r: Result<(), Error>) where
        F: FnOnce(&mut Self) -> Result<(), Error>,

        requires
            forall|e: &mut Self| *e == *old(self) ==> call_requires(f, (e,)),
        ensures
            exists|e: &mut Self|
                *e == *old(self) && *final(e) == *final(self) && call_ensures(f, (e,), r),
    {
        f(self)
    }

    /// Emits an optional value: whatever `f` emits, which is the empty value
    /// or the value itself. Nothing on the wire tells the two apart from a
    /// value that was never optional.
    pub fn emit_option<F>(&mut self, f: F) -> (r: Result<(), Error>) where
        F: FnOnce(&mut Self) -> Result<(), Error>,

        requires
            forall|e: &mut Self| *e == *old(self) ==> call_requires(f, (e,)),
        ensures
            exists|e: &mut Self|
                *e == *old(self) && *final(e) == *final(self) && call_ensures(f, (e,), r),
    {
        f(self)
    }

    /// Emits the present case of an optional value: whatever `f` emits.
    pub fn emit_option_some<F>(&mut self, f: F) -> (r: Result<(), Error>) where
        F: FnOnce(&mut Self) -> Result<(), Error>,

        requires
            forall|e: &mut Self| *e == *old(self) ==> call_requires(f, (e,)),
        ensures
            exists|e: &mut Self|
                *e == *old(self) && *final(e) == *final(self) && call_ensures(f, (e,), r),
    {
        f(self)
    }

    /// Emits a sequence of `len` elements: the header of an array of `len`
    /// elements, then whatever `f` emits. If the header fails, `f` is not run.
    pub fn emit_seq<F>(&mut self, len: usize, f: F) -> (r: Result<(), Error>) where
        F: FnOnce(&mut Self) -> Result<(), Error>,

        requires
            forall|e: &mut Self|
                old(self).wr.state().took(e.wr.state(), array_len_encoding(wire_len(len)))
                    && *final(e.wr) == *final(old(self).wr) ==> call_requires(f, (e,)),
        ensures
            ({
                ||| {
                    &&& r matches Err(err) && !(err is InvalidFixedValueWrite)
                    &&& value_written(
                        old(self).wr.state(),
                        final(self).wr.state(),
                        array_len_encoding(wire_len(len)),
                        emitted(r),
                    )
                    &&& *final(final(self).wr) == *final(old(self).wr)
                }
                ||| exists|e: &mut Self|
                    {
                        &&& old(self).wr.state().took(
                            e.wr.state(),
                            array_len_encoding(wire_len(len)),
                        )
                        &&& *final(e.wr) == *final(old(self).wr)
                        &&& *final(e) == *final(self)
                        &&& call_ensures(f, (e,), r)
                    }
            }),
    {
        let ghost pre = self.wr.state();
        let ghost head = array_len_encoding(wire_len(len));
        match write_array_len(self.wr, low_u32(len)) {
            Err(err) => Err(Error::from(err)),
            Ok(_) => {
                assert(pre.took(self.wr.state(), head));
                f(self)
            },
        }
    }

    /// Emits one element of a sequence: whatever `f` emits.
    pub fn emit_seq_elt<F>(&mut self, _idx: usize, f: F) -> (r: Result<(), Error>) where
        F: FnOnce(&mut Self) -> Result<(), Error>,

        requires
            forall|e: &mut Self| *e == *old(self) ==> call_requires(f, (e,)),
        ensures
            exists|e: &mut Self|
                *e == *old(self) && *final(e) == *final(self) && call_ensures(f, (e,), r),
    {
        f(self)
    }

    /// Emits a map of `len` entries: the header of a map of `len` entries,
    /// then whatever `f` emits, which is each key followed by its value. If
    /// the header fails, `f` is not run.
    pub fn emit_map<F>(&mut self, len: usize, f: F) -> (r: Result<(), Error>) where
        F: FnOnce(&mut Self) -> Result<(), Error>,

        requires
            forall|e: &mut Self|
                old(self).wr.state().took(e.wr.state(), map_len_encoding(wire_len(len)))
                    && *final(e.wr) == *final(old(self).wr) ==> call_requires(f, (e,)),
        ensures
            ({
                ||| {
                    &&& r matches Err(err) && !(err is InvalidFixedValueWrite)
                    &&& value_written(
                        old(self).wr.state(),
                        final(self).wr.state(),
                        map_len_encoding(wire_len(len)),
                        emitted(r),
                    )
                    &&& *final(final(self).wr) == *final(old(self).wr)
                }
                ||| exists|e: &mut Self|
                    {
                        &&& old(self).wr.state().took(
                            e.wr.state(),
                            map_len_encoding(wire_len(len)),
                        )
                        &&& *final(e.wr) == *final(old(self).wr)
                        &&& *final(e) == *final(self)
                        &&& call_ensures(f, (e,), r)
                    }
            }),
    {
        let ghost pre = self.wr.state();
        let ghost head = map_len_encoding(wire_len(len));
        match write_map_len(self.wr, low_u32(len)) {
            Err(err) => Err(Error::from(err)),
            Ok(_) => {
                assert(pre.took(self.wr.state(), head));
                f(self)
            },
        }
    }

    /// Emits the key of one entry of a map: whatever `f` emits.
    pub fn emit_map_elt_key<F>(&mut self, _idx: usize, f: F) -> (r: Result<(), Error>) where
        F: FnOnce(&mut Self) -> Result<(), Error>,

        requires
            forall|e: &mut Self| *e == *old(self) ==> call_requires(f, (e,)),
        ensures
            exists|e: &mut Self|
                *e == *old(self) && *final(e) == *final(self) && call_ensures(f, (e,), r),
    {
        f(self)
    }

    /// Emits the value of one entry of a map: whatever `f` emits.
    pub fn emit_map_elt_val<F>(&mut self, _idx: usize, f: F) -> (r: Result<(), Error>) where
        F: FnOnce(&mut Self) -> Result<(), Error>,

        requires
            forall|e: &mut Self| *e == *old(self) ==> call_requires(f, (e,)),
        ensures
            exists|e: &mut Self|
                *e == *old(self) && *final(e) == *final(self) && call_ensures(f, (e,), r),
    {
        f(self)
    }
}

/// The low 32 bits of a length: what the wire has room for.
fn low_u32(len: usize) -> (r: u32)
    ensures
        r == wire_len(len),
{
    assert((len as u64) as u32 == (len as u64) % 0x1_0000_0000) by (bit_vector);
    (len as u64) as u32
}

} // verus!

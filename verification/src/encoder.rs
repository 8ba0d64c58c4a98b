//! The append-only byte sink that every encoding writes into.

use vstd::prelude::*;

verus! {

/// `wasmlib::WasmEncoder`, the growable byte buffer of the host library. It
/// is carried as it is; of what it holds only `sink_bytes` speaks.
#[verifier::external_type_specification]
#[verifier::external_body]
pub struct ExWasmEncoder(wasmlib::WasmEncoder);

/// The bytes that a `wasmlib::WasmEncoder` holds, oldest first.
pub uninterp spec fn sink_bytes(sink: wasmlib::WasmEncoder) -> Seq<u8>;

/// `wasmlib::WasmEncoder::new`: the buffer of a fresh encoder is empty.
#[verifier::external_body]
fn sink_new() -> (sink: wasmlib::WasmEncoder)
    ensures
        sink_bytes(sink) == Seq::<u8>::empty(),
{
    wasmlib::WasmEncoder::new()
}

/// `wasmlib::WasmEncoder::fixed_bytes`, called with the slice's own length:
/// the slice is appended to the buffer as it is, with nothing before or after
/// it. The length that is handed over always matches, so the call's length
/// check never fires.
#[verifier::external_body]
fn sink_append(sink: &mut wasmlib::WasmEncoder, value: &[u8])
    ensures
        sink_bytes(*final(sink)) == sink_bytes(*old(sink)) + value@,
{
    sink.fixed_bytes(value, value.len());
}

/// `wasmlib::WasmEncoder::buf`: a copy of the buffer; the encoder is left as
/// it was.
#[verifier::external_body]
fn sink_data(sink: &wasmlib::WasmEncoder) -> (data: Vec<u8>)
    ensures
        data@ == sink_bytes(*sink),
{
    sink.buf()
}

/// An append-only byte sink. Bytes are only ever added at the end; what has
/// been written is never changed.
pub struct Encoder {
    sink: wasmlib::WasmEncoder,
}

impl View for Encoder {
    type V = Seq<u8>;

    closed spec fn view(&self) -> Seq<u8> {
        sink_bytes(self.sink)
    }
}

impl Encoder {
    /// Creates an encoder that holds no bytes.
    pub fn new() -> (encoder: Encoder)
        ensures
            encoder@ == Seq::<u8>::empty(),
    {
        Encoder { sink: sink_new() }
    }

    /// Appends `value` as it is.
    pub fn raw(&mut self, value: &[u8])
        ensures
            final(self)@ == old(self)@ + value@,
    {
        sink_append(&mut self.sink, value);
    }

    /// Returns everything written so far.
    pub fn data(&self) -> (data: Vec<u8>)
        ensures
            data@ == self@,
    {
        sink_data(&self.sink)
    }
}

} // verus!

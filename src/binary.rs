use crate::codec::{
    compress_bounded, compressed, decode_blob, decode_spec, decompress_bounded, decompress_spec,
};
use crate::error::InjectorError;
use vstd::prelude::*;
use wasm_instrument::parity_wasm::elements::Error as WasmError;
use wasm_instrument::parity_wasm::elements::Module as WasmModule;

verus! {

/// A module in the structure of its binary format, as parity_wasm reads it.
#[verifier::external_type_specification]
#[verifier::external_body]
pub struct ExWasmModule(WasmModule);

/// Declares the error of parity_wasm's reader and writer.
#[verifier::external_type_specification]
#[verifier::external_body]
pub struct ExWasmError(WasmError);

/// Whether `bytes` are a module in the binary format, as parity_wasm reads it.
pub uninterp spec fn parses_as_module(bytes: Seq<u8>) -> bool;

/// Relies on parity_wasm::deserialize_buffer: reads a module from its binary
/// form; whether it succeeds depends on the bytes alone.
#[verifier::external_body]
fn deserialize_module(bytes: &[u8]) -> (r: Result<WasmModule, WasmError>)
    ensures
        r is Ok <==> parses_as_module(bytes@),
{
    wasm_instrument::parity_wasm::deserialize_buffer(bytes)
}

/// Relies on parity_wasm::serialize: writes a module in its binary form.
#[verifier::external_body]
fn serialize_module(module: WasmModule) -> (r: Result<Vec<u8>, WasmError>) {
    wasm_instrument::parity_wasm::serialize(module)
}

/// Reads a module from a blob that may be hex text and may be compressed.
/// It succeeds exactly when the blob decodes to the bytes of a module; else
/// it gives a decode error.
pub fn module_from_blob(blob_bytes: &[u8]) -> (r: Result<WasmModule, InjectorError>)
    ensures
        r is Ok <==> (decode_spec(blob_bytes@) matches Some(raw) && parses_as_module(raw)),
        decode_spec(blob_bytes@) is None ==> r == Err::<WasmModule, InjectorError>(
            InjectorError::Decode,
        ),
        r is Err ==> r == Err::<WasmModule, InjectorError>(InjectorError::Decode),
{
    let raw = decode_blob(blob_bytes)?;
    match deserialize_module(raw.as_slice()) {
        Ok(m) => Ok(m),
        Err(_) => Err(InjectorError::Decode),
    }
}

/// Writes a module in its binary form; a failure is an encode error.
pub fn blob_from_module(module: WasmModule) -> (r: Result<Vec<u8>, InjectorError>)
    ensures
        r is Err ==> r == Err::<Vec<u8>, InjectorError>(InjectorError::Encode),
{
    match serialize_module(module) {
        Ok(b) => Ok(b),
        Err(_) => Err(InjectorError::Encode),
    }
}

/// Relies on wasm_instrument::inject_stack_limiter: instruments every
/// function to trap once the stack passes `stack_limit`; a module it cannot
/// instrument comes back as a message.
#[verifier::external_body]
fn instrument_stack_limit(module: WasmModule, stack_limit: u32) -> (r: Result<
    WasmModule,
    &'static str,
>) {
    wasm_instrument::inject_stack_limiter(module, stack_limit)
}

/// The stack limit that `stack_limited_blobs` instruments runtimes with.
pub const STACK_LIMIT: u32 = 1024;

/// The bound on a runtime blob that `stack_limited_blobs` decompresses.
pub const RUNTIME_READ_BOMB_LIMIT: usize = 10000000;

/// The bound on the instrumented module that `stack_limited_blobs` compresses.
pub const RUNTIME_WRITE_BOMB_LIMIT: usize = 100000000;

/// Instruments the module of a (maybe compressed) runtime blob with a stack
/// limit, and returns the instrumented module's bytes, raw and compressed.
/// A blob that does not decompress or parse gives a decode error; a module
/// that cannot be instrumented, written or compressed an encode error.
pub fn stack_limited_blobs(blob: &[u8]) -> (r: Result<(Vec<u8>, Vec<u8>), InjectorError>)
    ensures
        decompress_spec(blob@, RUNTIME_READ_BOMB_LIMIT) is None ==> r == Err::<
            (Vec<u8>, Vec<u8>),
            InjectorError,
        >(InjectorError::Decode),
        r matches Ok((raw, packed)) ==> compressed(raw@, RUNTIME_WRITE_BOMB_LIMIT) == Some(
            packed@,
        ) && decompress_spec(packed@, RUNTIME_WRITE_BOMB_LIMIT) == Some(raw@),
        r matches Err(e) ==> e == InjectorError::Decode || e == InjectorError::Encode,
        decompress_spec(blob@, RUNTIME_READ_BOMB_LIMIT) matches Some(raw) && !parses_as_module(raw)
            ==> r == Err::<(Vec<u8>, Vec<u8>), InjectorError>(InjectorError::Decode),
{
    let raw = decompress_bounded(blob, RUNTIME_READ_BOMB_LIMIT)?;
    let module = match deserialize_module(raw.as_slice()) {
        Ok(m) => m,
        Err(_) => return Err(InjectorError::Decode),
    };
    let limited = match instrument_stack_limit(module, STACK_LIMIT) {
        Ok(m) => m,
        Err(_) => return Err(InjectorError::Encode),
    };
    let bytes = blob_from_module(limited)?;
    let packed = compress_bounded(bytes.as_slice(), RUNTIME_WRITE_BOMB_LIMIT)?;
    Ok((bytes, packed))
}

} // verus!

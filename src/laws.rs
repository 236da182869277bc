use crate::codec::{decode_spec, encode_spec, hex_marker, lemma_unhex_hex_text, zstd_prefix};
use crate::error::InjectorError;
use crate::injections::{
    bad_return_value_code, infinite_loop_prefix, injected, noops_prefix, Injection,
    NOOPS_PER_MB,
};
use crate::module::{
    allocator_index, function_import_count, local_index_of,
    locate_body_spec, ModuleView,
};
use crate::text::seq_starts_with;
use vstd::prelude::*;

verus! {

/// Injection is deterministic: equal modules, names, faults and sizes give
/// equal outcomes, so two runs on one input produce the same module.
pub proof fn lemma_inject_deterministic(
    a: ModuleView,
    b: ModuleView,
    name: Seq<char>,
    fault: Injection,
    size: Option<i16>,
)
    requires
        a == b,
    ensures
        injected(a, name, fault, size) == injected(b, name, fault, size),
{
}

/// Without compression, decoding the encoded blob gives the bytes back,
/// provided the bytes do not themselves open like a compressed blob, nor,
/// when the blob is not hexed, like hex text.
pub proof fn lemma_round_trip_uncompressed(raw: Seq<u8>, hexify: bool)
    requires
        !seq_starts_with(raw, zstd_prefix()),
        hexify || !seq_starts_with(raw, hex_marker()),
    ensures
        encode_spec(raw, false, hexify) is Some,
        decode_spec(encode_spec(raw, false, hexify)->0) == Some(raw),
{
    if hexify {
        lemma_unhex_hex_text(raw);
    }
}

/// The function imports and the local index together make up the global
/// index; a global index inside the imports is not a local function.
pub proof fn lemma_index_space(m: ModuleView, global_index: nat)
    ensures
        global_index >= function_import_count(m.imports) ==> local_index_of(
            global_index as int,
            function_import_count(m.imports) as int,
        ) is Ok && function_import_count(m.imports) + local_index_of(
            global_index as int,
            function_import_count(m.imports) as int,
        )->Ok_0 == global_index,
        global_index < function_import_count(m.imports) ==> local_index_of(
            global_index as int,
            function_import_count(m.imports) as int,
        ) == Err::<int, InjectorError>(InjectorError::InvalidTarget),
{
}

/// A heap-overflow injection fails with `NotFound` when no import's field
/// name starts with the allocator prefix, whatever the rest of the input.
pub proof fn lemma_heap_overflow_needs_allocator(
    m: ModuleView,
    name: Seq<char>,
    size: Option<i16>,
)
    requires
        allocator_index(m.imports) is None,
    ensures
        injected(m, name, Injection::HeapOverflow, size) == Err::<ModuleView, InjectorError>(
            InjectorError::NotFound,
        ),
{
}

/// A no-op injection of `size` megabytes puts exactly `size * 1_000_000`
/// no-ops before the original instructions.
pub proof fn lemma_noops_count(m: ModuleView, name: Seq<char>, size: i16)
    requires
        injected(m, name, Injection::Noops, Some(size)) is Ok,
    ensures
        ({
            let i = locate_body_spec(m, name)->Ok_0;
            let body = injected(m, name, Injection::Noops, Some(size))->Ok_0.code[i];
            &&& 0 <= i < m.code.len()
            &&& body == noops_prefix((size * NOOPS_PER_MB) as nat) + m.code[i]
            &&& body.len() - m.code[i].len() == size * NOOPS_PER_MB
        }),
{
}

/// An infinite-loop injection that succeeds puts `Loop, Nop, Br(0), End`
/// before the original instructions, so the body grows by four.
pub proof fn lemma_infinite_loop_body(m: ModuleView, name: Seq<char>)
    requires
        injected(m, name, Injection::InfiniteLoop, None) is Ok,
    ensures
        ({
            let i = locate_body_spec(m, name)->Ok_0;
            let body = injected(m, name, Injection::InfiniteLoop, None)->Ok_0.code[i];
            &&& body == infinite_loop_prefix() + m.code[i]
            &&& body.len() == m.code[i].len() + 4
        }),
{
}

/// A bad-return-value injection that succeeds leaves exactly the two
/// instructions `I64Const(123456789), End` in the body, whatever it held.
pub proof fn lemma_bad_return_value_body(m: ModuleView, name: Seq<char>)
    requires
        injected(m, name, Injection::BadReturnValue, None) is Ok,
    ensures
        injected(m, name, Injection::BadReturnValue, None)->Ok_0.code[locate_body_spec(
            m,
            name,
        )->Ok_0] == bad_return_value_code(),
        bad_return_value_code().len() == 2,
{
}

} // verus!

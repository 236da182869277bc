//! Fault injection into exported functions of WebAssembly modules.
//!
//! The library locates an exported function in a structural model of a
//! module, rewrites its body with one of a fixed catalog of faults, and
//! moves module blobs between raw, compressed and hex-text encodings. It also
//! holds the command-line grammar of the injector and its rules for naming
//! output files.

pub mod binary;
pub mod cli;
pub mod codec;
pub mod error;
pub mod injections;
pub mod laws;
pub mod module;
pub mod paths;
pub mod text;

pub use self::binary::{blob_from_module, module_from_blob};
pub use self::cli::{Action, Cli, CliError, ErrorKind, GlobalOpts};
pub use self::codec::{decode_blob, encode_blob, hexify_bytes, unhexify_bytes};
pub use self::error::InjectorError;
pub use self::injections::Injection;
pub use self::module::{
    local_function_index, BlockType, ExportEntry, External, FuncBody, ImportEntry, Instruction,
    Internal, Module, ValueType,
};
pub use self::paths::{file_stem, get_file_name, modify_file_name};

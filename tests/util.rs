use wasm_injector::binary::stack_limited_blobs;
use wasm_injector::codec::{compress_bounded, decompress_bounded};
use wasm_injector::{
    blob_from_module, decode_blob, encode_blob, file_stem, get_file_name, hexify_bytes, modify_file_name,
    module_from_blob, unhexify_bytes, InjectorError,
};

#[test]
fn hexification_isomorphism() {
    let bytes = b"0123456789abcdef".to_vec();

    let hexified_bytes = hexify_bytes(bytes.clone());

    let unhexified_bytes = unhexify_bytes(hexified_bytes).unwrap();

    assert_eq!(bytes, unhexified_bytes);
}

#[test]
fn hex_round_trip_of_three_bytes() {
    let hex = hexify_bytes(vec![0x01, 0x02, 0xAB]);
    assert_eq!(hex, b"0x0102ab".to_vec());
    assert_eq!(unhexify_bytes(hex).unwrap(), vec![0x01, 0x02, 0xAB]);
}

#[test]
fn hex_of_nothing_is_the_marker() {
    assert_eq!(hexify_bytes(Vec::new()), b"0x".to_vec());
    assert_eq!(unhexify_bytes(b"0x".to_vec()), Ok(Vec::new()));
}

#[test]
fn unhexify_accepts_uppercase_digits() {
    assert_eq!(unhexify_bytes(b"0xFFa0".to_vec()), Ok(vec![0xFF, 0xA0]));
}

#[test]
fn malformed_hex_is_decode_error() {
    assert_eq!(unhexify_bytes(b"0x012".to_vec()), Err(InjectorError::Decode));
    assert_eq!(unhexify_bytes(b"0x0g".to_vec()), Err(InjectorError::Decode));
    assert_eq!(unhexify_bytes(b"0x+1".to_vec()), Err(InjectorError::Decode));
    assert_eq!(unhexify_bytes(b"1234".to_vec()), Err(InjectorError::Decode));
    assert_eq!(unhexify_bytes(b"0".to_vec()), Err(InjectorError::Decode));
    assert_eq!(decode_blob(b"0x0"), Err(InjectorError::Decode));
}

#[test]
fn raw_blob_decodes_to_itself() {
    let wasm = b"\0asm\x01\0\0\0".to_vec();
    assert_eq!(decode_blob(&wasm), Ok(wasm.clone()));
    assert_eq!(decode_blob(b""), Ok(Vec::new()));
    assert_eq!(decode_blob(b"0"), Ok(b"0".to_vec()));
}

#[test]
fn encode_blob_without_steps_is_identity() {
    let wasm = b"\0asm\x01\0\0\0".to_vec();
    let encoded = encode_blob(&wasm, false, false).unwrap();
    assert_eq!(encoded, wasm);
    assert_eq!(decode_blob(&encoded), Ok(wasm));
}

#[test]
fn compressed_blob_round_trip() {
    let wasm: Vec<u8> = (0..4096u32).map(|i| (i % 7) as u8).collect();
    let compressed = encode_blob(&wasm, true, false).unwrap();
    assert_ne!(compressed, wasm);
    assert_eq!(&compressed[..8], &[82, 188, 83, 118, 70, 219, 142, 5]);
    assert_eq!(decode_blob(&compressed), Ok(wasm.clone()));

    let both = encode_blob(&wasm, true, true).unwrap();
    assert_eq!(&both[..2], b"0x");
    assert_eq!(decode_blob(&both), Ok(wasm.clone()));

    let hexed = encode_blob(&wasm, false, true).unwrap();
    assert_eq!(hexed.len(), 2 + 2 * wasm.len());
    assert_eq!(decode_blob(&hexed), Ok(wasm));
}

#[test]
fn malformed_compressed_blob_is_decode_error() {
    let mut blob = vec![82, 188, 83, 118, 70, 219, 142, 5];
    blob.extend_from_slice(b"not zstd at all");
    assert_eq!(decode_blob(&blob), Err(InjectorError::Decode));
}

#[test]
fn file_names() {
    assert_eq!(get_file_name("samples/example.wasm"), Ok("example"));
    assert_eq!(get_file_name("runtime.compact.compressed.wasm"), Ok("runtime"));
    assert_eq!(get_file_name("dir/name/"), Ok("name"));
    assert_eq!(get_file_name("dir/name/."), Ok("name"));
    assert_eq!(get_file_name(".hidden"), Ok(""));
    assert_eq!(get_file_name("/"), Err(InjectorError::Config));
    assert_eq!(get_file_name(""), Err(InjectorError::Config));
    assert_eq!(get_file_name("dir/.."), Err(InjectorError::Config));
    assert_eq!(get_file_name("."), Err(InjectorError::Config));
}

#[test]
fn modified_file_names() {
    let prefix = |s: &str| format!("noops-{}.wasm", s);
    assert_eq!(
        modify_file_name("samples/example.wasm", prefix),
        Ok("samples/noops-example.wasm".to_string())
    );
    assert_eq!(
        modify_file_name("example.wasm", prefix),
        Ok("noops-example.wasm".to_string())
    );
    assert_eq!(
        modify_file_name("/example.wasm", prefix),
        Ok("/noops-example.wasm".to_string())
    );
    assert_eq!(
        modify_file_name("a//b/example.wasm/", prefix),
        Ok("a//b/noops-example.wasm".to_string())
    );
    assert_eq!(
        modify_file_name("./example.wasm", prefix),
        Ok("./noops-example.wasm".to_string())
    );
    assert_eq!(modify_file_name("..", prefix), Err(InjectorError::Config));
}

#[test]
fn empty_module_blob_round_trip() {
    let wasm = b"\0asm\x01\0\0\0".to_vec();
    let module = module_from_blob(&wasm).unwrap();
    assert_eq!(blob_from_module(module), Ok(wasm.clone()));

    let hexed = encode_blob(&wasm, true, true).unwrap();
    let module = module_from_blob(&hexed).unwrap();
    assert_eq!(blob_from_module(module), Ok(wasm));
}

#[test]
fn blob_that_is_no_module_is_decode_error() {
    assert!(matches!(
        module_from_blob(b"not a module"),
        Err(InjectorError::Decode)
    ));
    assert!(matches!(module_from_blob(b"0xzz"), Err(InjectorError::Decode)));
}

#[test]
fn bounded_compression() {
    let data = vec![7u8; 100];
    assert_eq!(compress_bounded(&data, 99), Err(InjectorError::Encode));
    let packed = compress_bounded(&data, 100).unwrap();
    assert_ne!(packed, data);
    assert_eq!(decompress_bounded(&packed, 100), Ok(data.clone()));
    assert_eq!(decompress_bounded(&packed, 99), Err(InjectorError::Decode));
    assert_eq!(decompress_bounded(&data, 1), Ok(data));
}

#[test]
fn stack_limiter_on_empty_module() {
    let wasm = b"\0asm\x01\0\0\0".to_vec();
    let (raw, packed) = stack_limited_blobs(&wasm).unwrap();
    assert_eq!(&raw[..4], b"\0asm");
    assert_eq!(decompress_bounded(&packed, 100_000_000), Ok(raw));
    assert_eq!(stack_limited_blobs(b"garbage"), Err(InjectorError::Decode));
}

#[test]
fn file_stems() {
    assert_eq!(file_stem("example.compact.wasm"), "example");
    assert_eq!(file_stem("example"), "example");
    assert_eq!(file_stem(".hidden"), "");
    assert_eq!(file_stem(""), "");
}

use crate::error::InjectorError;
use crate::text::seq_starts_with;
use vstd::prelude::*;
use vstd::slice::slice_to_vec;

verus! {

/// The largest number of bytes that compression accepts and decompression
/// produces, a guard against decompression bombs.
pub const CODE_BLOB_BOMB_LIMIT: usize = 73400320;

/// The two bytes `0x` that open hex text.
pub open spec fn hex_marker() -> Seq<u8> {
    seq![48u8, 120u8]
}

/// The magic bytes that open a compressed blob.
pub open spec fn zstd_prefix() -> Seq<u8> {
    seq![82u8, 188u8, 83u8, 118u8, 70u8, 219u8, 142u8, 5u8]
}

/// The lowercase hex digit of a value below 16.
pub open spec fn hex_digit(n: u8) -> u8 {
    if n < 10 {
        (48 + n) as u8
    } else {
        (87 + n) as u8
    }
}

/// Two lowercase hex digits per byte, most significant first.
pub open spec fn hex_digits(b: Seq<u8>) -> Seq<u8> {
    Seq::new(
        2 * b.len(),
        |k: int|
            if k % 2 == 0 {
                hex_digit(b[k / 2] / 16)
            } else {
                hex_digit(b[k / 2] % 16)
            },
    )
}

/// The hex text of `b`: `0x` and then two lowercase digits per byte.
pub open spec fn hex_text(b: Seq<u8>) -> Seq<u8> {
    hex_marker() + hex_digits(b)
}

/// A digit `0-9`, `a-f` or `A-F`.
pub open spec fn is_hex_digit(c: u8) -> bool {
    (48 <= c <= 57) || (97 <= c <= 102) || (65 <= c <= 70)
}

/// The value of a hex digit.
pub open spec fn hex_value(c: u8) -> u8 {
    if 48 <= c <= 57 {
        (c - 48) as u8
    } else if 97 <= c <= 102 {
        (c - 87) as u8
    } else {
        (c - 55) as u8
    }
}

/// The bytes that hex text `t` spells, if it is `0x` followed by an even
/// number of hex digits.
pub open spec fn unhex(t: Seq<u8>) -> Option<Seq<u8>> {
    if seq_starts_with(t, hex_marker()) && t.len() % 2 == 0 && forall|k: int|
        2 <= k < t.len() ==> is_hex_digit(#[trigger] t[k]) {
        Some(
            Seq::new(
                ((t.len() - 2) / 2) as nat,
                |i: int| (hex_value(t[2 + 2 * i]) * 16 + hex_value(t[3 + 2 * i])) as u8,
            ),
        )
    } else {
        None
    }
}

/// What decompressing a blob that opens with the compression magic yields,
/// or `None` where it is malformed or would exceed `bomb_limit` bytes.
pub uninterp spec fn decompressed(blob: Seq<u8>, bomb_limit: usize) -> Option<Seq<u8>>;

/// What compressing `blob` under `bomb_limit` yields, if it succeeds.
pub uninterp spec fn compressed(blob: Seq<u8>, bomb_limit: usize) -> Option<Seq<u8>>;

/// Declares the error of the blob decompressor.
#[verifier::external_type_specification]
#[verifier::external_body]
pub struct ExBlobError(sp_maybe_compressed_blob::Error);

/// Relies on sp_maybe_compressed_blob::decompress: a blob without the magic
/// prefix comes back unchanged; one with it is decoded, and refused where the
/// result would exceed `bomb_limit` bytes. The limit is raised by one inside,
/// so it must stay below `usize::MAX`.
#[verifier::external_body]
fn decompress_blob(blob: &[u8], bomb_limit: usize) -> (r: Result<Vec<u8>, sp_maybe_compressed_blob::Error>)
    requires
        bomb_limit < usize::MAX,
    ensures
        !seq_starts_with(blob@, zstd_prefix()) ==> r is Ok && r->Ok_0@ == blob@,
        seq_starts_with(blob@, zstd_prefix()) ==> (r is Ok <==> decompressed(blob@, bomb_limit) is Some),
        seq_starts_with(blob@, zstd_prefix()) && r is Ok ==> r->Ok_0@ == decompressed(blob@, bomb_limit)->0
            && r->Ok_0@.len() <= bomb_limit,
{
    sp_maybe_compressed_blob::decompress(blob, bomb_limit).map(|c| c.into_owned())
}

/// Relies on sp_maybe_compressed_blob::compress_weakly: a blob over
/// `bomb_limit` bytes is refused; otherwise the result opens with the magic
/// prefix and decompresses under the same limit to the blob. The limit must
/// stay below `usize::MAX`, as for decompression.
#[verifier::external_body]
fn compress_blob(blob: &[u8], bomb_limit: usize) -> (r: Option<Vec<u8>>)
    requires
        bomb_limit < usize::MAX,
    ensures
        r is Some <==> compressed(blob@, bomb_limit) is Some,
        r is Some ==> r->0@ == compressed(blob@, bomb_limit)->0,
        blob@.len() > bomb_limit ==> r is None,
        r is Some ==> seq_starts_with(r->0@, zstd_prefix()) && decompressed(r->0@, bomb_limit) == Some(
            blob@,
        ),
{
    sp_maybe_compressed_blob::compress_weakly(blob, bomb_limit)
}

/// The lowercase hex digit of `n`.
fn hex_digit_of(n: u8) -> (r: u8)
    requires
        n < 16,
    ensures
        r == hex_digit(n),
{
    if n < 10 {
        48 + n
    } else {
        87 + n
    }
}

/// Takes bytes and returns their hex text: `0x` and two lowercase digits per
/// byte.
pub fn hexify_bytes(bytes: Vec<u8>) -> (r: Vec<u8>)
    ensures
        r@ == hex_text(bytes@),
{
    let mut out: Vec<u8> = Vec::new();
    out.push(48u8);
    out.push(120u8);
    let mut i: usize = 0;
    while i < bytes.len()
        invariant
            i <= bytes@.len(),
            out@ =~= hex_marker() + hex_digits(bytes@.take(i as int)),
        decreases bytes.len() - i,
    {
        let b = bytes[i];
        out.push(hex_digit_of(b / 16));
        out.push(hex_digit_of(b % 16));
        proof {
            let prev = bytes@.take(i as int);
            let next = bytes@.take(i + 1);
            assert(hex_digits(next) =~= hex_digits(prev).push(hex_digit(b / 16)).push(
                hex_digit(b % 16),
            ));
        }
        i = i + 1;
    }
    assert(bytes@.take(bytes@.len() as int) =~= bytes@);
    out
}

/// The value of hex digit `c`, if it is one.
fn hex_value_of(c: u8) -> (r: Option<u8>)
    ensures
        r == (if is_hex_digit(c) {
            Some(hex_value(c))
        } else {
            None::<u8>
        }),
{
    if 48 <= c && c <= 57 {
        Some(c - 48)
    } else if 97 <= c && c <= 102 {
        Some(c - 87)
    } else if 65 <= c && c <= 70 {
        Some(c - 55)
    } else {
        None
    }
}

/// Takes hex text, `0x` followed by two hex digits per byte, and returns the
/// bytes it spells; fails with a decode error on anything else.
pub fn unhexify_bytes(bytes: Vec<u8>) -> (r: Result<Vec<u8>, InjectorError>)
    ensures
        match unhex(bytes@) {
            Some(b) => r is Ok && r->Ok_0@ == b,
            None => r == Err::<Vec<u8>, InjectorError>(InjectorError::Decode),
        },
{
    let n = bytes.len();
    if n < 2 || bytes[0] != 48u8 || bytes[1] != 120u8 || n % 2 != 0 {
        proof {
            if n >= 2 {
                assert(bytes@.subrange(0, 2) =~= seq![bytes@[0], bytes@[1]]);
            }
        }
        return Err(InjectorError::Decode);
    }
    assert(bytes@.subrange(0, 2) =~= hex_marker());
    let mut out: Vec<u8> = Vec::new();
    let mut i: usize = 2;
    while i < n
        invariant
            n == bytes@.len(),
            n % 2 == 0,
            2 <= i <= n,
            i % 2 == 0,
            out@.len() == (i - 2) / 2,
            forall|k: int| 2 <= k < i ==> is_hex_digit(#[trigger] bytes@[k]),
            forall|j: int|
                0 <= j < out@.len() ==> #[trigger] out@[j] == (hex_value(bytes@[2 + 2 * j]) * 16
                    + hex_value(bytes@[3 + 2 * j])) as u8,
        decreases n - i,
    {
        let hi = hex_value_of(bytes[i]);
        let lo = hex_value_of(bytes[i + 1]);
        match (hi, lo) {
            (Some(h), Some(l)) => {
                assert(h < 16 && l < 16);
                out.push(h * 16 + l);
            },
            _ => {
                return Err(InjectorError::Decode);
            },
        }
        i = i + 2;
    }
    assert(out@ =~= unhex(bytes@)->0);
    Ok(out)
}

/// The bytes of a blob that may be compressed, or `None` where it is
/// compressed and does not decompress within `bomb_limit` bytes.
pub open spec fn decompress_spec(blob: Seq<u8>, bomb_limit: usize) -> Option<Seq<u8>> {
    if seq_starts_with(blob, zstd_prefix()) {
        decompressed(blob, bomb_limit)
    } else {
        Some(blob)
    }
}

/// The raw bytes of a blob: hex text is unhexed first, and a compressed
/// result is then decompressed.
pub open spec fn decode_spec(blob: Seq<u8>) -> Option<Seq<u8>> {
    let raw = if seq_starts_with(blob, hex_marker()) {
        unhex(blob)
    } else {
        Some(blob)
    };
    match raw {
        None => None,
        Some(r) => decompress_spec(r, CODE_BLOB_BOMB_LIMIT),
    }
}

/// Decompresses a blob that opens with the compression magic, refusing one
/// that would exceed `bomb_limit` bytes (below `usize::MAX`); any other blob
/// is returned as it is.
pub fn decompress_bounded(blob: &[u8], bomb_limit: usize) -> (r: Result<Vec<u8>, InjectorError>)
    requires
        bomb_limit < usize::MAX,
    ensures
        match decompress_spec(blob@, bomb_limit) {
            Some(b) => r is Ok && r->Ok_0@ == b,
            None => r == Err::<Vec<u8>, InjectorError>(InjectorError::Decode),
        },
{
    match decompress_blob(blob, bomb_limit) {
        Ok(raw) => Ok(raw),
        Err(_) => Err(InjectorError::Decode),
    }
}

/// Compresses a blob of at most `bomb_limit` bytes (below `usize::MAX`); a
/// larger one, or a
/// failure of the compressor, is an encode error.
pub fn compress_bounded(blob: &[u8], bomb_limit: usize) -> (r: Result<Vec<u8>, InjectorError>)
    requires
        bomb_limit < usize::MAX,
    ensures
        match compressed(blob@, bomb_limit) {
            Some(c) => r is Ok && r->Ok_0@ == c,
            None => r == Err::<Vec<u8>, InjectorError>(InjectorError::Encode),
        },
        blob@.len() > bomb_limit ==> r == Err::<Vec<u8>, InjectorError>(InjectorError::Encode),
        r is Ok ==> seq_starts_with(r->Ok_0@, zstd_prefix()) && decompress_spec(
            r->Ok_0@,
            bomb_limit,
        ) == Some(blob@),
{
    match compress_blob(blob, bomb_limit) {
        Some(c) => Ok(c),
        None => Err(InjectorError::Encode),
    }
}

/// A blob of `raw` bytes, compressed and then hexed as asked.
pub open spec fn encode_spec(raw: Seq<u8>, compress: bool, hexify: bool) -> Option<Seq<u8>> {
    let c = if compress {
        compressed(raw, CODE_BLOB_BOMB_LIMIT)
    } else {
        Some(raw)
    };
    match c {
        None => None,
        Some(c) => if hexify {
            Some(hex_text(c))
        } else {
            Some(c)
        },
    }
}

/// Turns a blob that may be hex text and may be compressed into raw bytes.
pub fn decode_blob(blob: &[u8]) -> (r: Result<Vec<u8>, InjectorError>)
    ensures
        match decode_spec(blob@) {
            Some(b) => r is Ok && r->Ok_0@ == b,
            None => r == Err::<Vec<u8>, InjectorError>(InjectorError::Decode),
        },
{
    let mut bytes = slice_to_vec(blob);
    if bytes.len() >= 2 && bytes[0] == 48u8 && bytes[1] == 120u8 {
        assert(bytes@.subrange(0, 2) =~= hex_marker());
        bytes = unhexify_bytes(bytes)?;
    } else {
        assert(bytes@.len() >= 2 ==> bytes@.subrange(0, 2) =~= seq![bytes@[0], bytes@[1]]);
    }
    decompress_bounded(bytes.as_slice(), CODE_BLOB_BOMB_LIMIT)
}

/// Turns raw bytes into a blob, compressing and then hexing as asked.
/// Decoding the blob gives the bytes back, unless neither step is taken and
/// the bytes themselves open like hex text or a compressed blob.
pub fn encode_blob(raw: &[u8], compress: bool, hexify: bool) -> (r: Result<Vec<u8>, InjectorError>)
    ensures
        match encode_spec(raw@, compress, hexify) {
            Some(b) => r is Ok && r->Ok_0@ == b,
            None => r == Err::<Vec<u8>, InjectorError>(InjectorError::Encode),
        },
        r is Ok && (compress || !seq_starts_with(raw@, zstd_prefix())) && (compress || hexify
            || !seq_starts_with(raw@, hex_marker())) ==> decode_spec(r->Ok_0@) == Some(raw@),
{
    let mut bytes = if compress {
        compress_bounded(raw, CODE_BLOB_BOMB_LIMIT)?
    } else {
        slice_to_vec(raw)
    };
    let ghost c = bytes@;
    proof {
        if compress {
            lemma_compressed_not_hex(c);
        }
    }
    if hexify {
        bytes = hexify_bytes(bytes);
        proof {
            lemma_unhex_hex_text(c);
        }
    }
    Ok(bytes)
}

/// Compressed bytes do not open like hex text.
proof fn lemma_compressed_not_hex(c: Seq<u8>)
    requires
        seq_starts_with(c, zstd_prefix()),
    ensures
        !seq_starts_with(c, hex_marker()),
{
    assert(c[0] == c.subrange(0, 8)[0]);
}

/// Hex text of `b` opens with the marker and spells `b`.
pub proof fn lemma_unhex_hex_text(b: Seq<u8>)
    ensures
        seq_starts_with(hex_text(b), hex_marker()),
        unhex(hex_text(b)) == Some(b),
{
    let t = hex_text(b);
    assert(t.subrange(0, 2) =~= hex_marker());
    assert forall|k: int| 2 <= k < t.len() implies is_hex_digit(#[trigger] t[k]) by {
        let d = hex_digits(b);
        assert(t[k] == d[k - 2]);
    }
    let u = unhex(t)->0;
    assert forall|i: int| 0 <= i < b.len() implies #[trigger] u[i] == b[i] by {
        let x = b[i];
        assert(t[2 + 2 * i] == hex_digit(x / 16));
        assert(t[3 + 2 * i] == hex_digit(x % 16));
        assert((hex_value(hex_digit(x / 16)) * 16 + hex_value(hex_digit(x % 16))) as u8 == x)
            by (bit_vector);
    }
    assert(u =~= b);
}

} // verus!

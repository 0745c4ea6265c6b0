//! The codec layer: the two streaming encoders, consumed as opaque
//! compressors of in-memory byte buffers, together with the byte-level
//! contracts the pipeline builds on.
//!
//! Which codec is active is fixed once per build of the tool; choosing
//! neither is a configuration error, surfaced eagerly by [`validate_codec`].

use vstd::prelude::*;

verus! {

/// The codec chosen once per build of the tool. `Unconfigured` is a
/// configuration error state, never a valid runtime choice.
#[derive(Clone, Copy, PartialEq, Eq, Structural, Debug)]
pub enum CodecKind {
    Brotli,
    Gzip,
    Unconfigured,
}

impl CodecKind {
    /// A codec is configured when it is one of the two supported algorithms.
    pub open spec fn is_configured(self) -> bool {
        self == CodecKind::Brotli || self == CodecKind::Gzip
    }
}

/// The configuration error: no codec was chosen when the tool was built.
#[derive(Clone, Copy, PartialEq, Eq, Structural, Debug)]
pub enum ConfigError {
    UnconfiguredCodec,
}

/// Eager configuration check: a run may only start with one of the two
/// supported algorithms, so a missing choice is reported before any file is
/// touched rather than on the first compression attempt.
pub fn validate_codec(codec: CodecKind) -> (r: Result<(), ConfigError>)
    ensures
        r is Ok <==> codec.is_configured(),
{
    if codec == CodecKind::Unconfigured {
        Err(ConfigError::UnconfiguredCodec)
    } else {
        Ok(())
    }
}

/// The stream the Brotli encoder produces for a byte sequence, fixed by the
/// input bytes alone.
pub uninterp spec fn brotli_of(data: Seq<u8>) -> Seq<u8>;

/// What the Brotli decompressor recovers from a byte sequence: `None` when
/// the bytes are not a well-formed stream.
pub uninterp spec fn brotli_plain(data: Seq<u8>) -> Option<Seq<u8>>;

/// The stream the Gzip encoder produces for a byte sequence, fixed by the
/// input bytes alone.
pub uninterp spec fn gzip_of(data: Seq<u8>) -> Seq<u8>;

/// What the Gzip decompressor recovers from a byte sequence: `None` when the
/// bytes are not a well-formed stream.
pub uninterp spec fn gzip_plain(data: Seq<u8>) -> Option<Seq<u8>>;

/// The view of an optional byte buffer.
pub open spec fn opt_bytes(r: Option<Vec<u8>>) -> Option<Seq<u8>> {
    match r {
        Some(v) => Some(v@),
        None => None,
    }
}

/// Relies on `brotli::CompressorWriter::with_params` with a 4096-byte buffer
/// and `BrotliEncoderParams::default()`: dropping the writer finalizes the
/// stream into the `Vec` sink, the stream is a function of the input bytes
/// alone, and `brotli::BrotliDecompress` recovers exactly the input from it.
/// Writing into a `Vec` cannot fail.
#[verifier::external_body]
fn brotli_compress(data: &Vec<u8>) -> (r: Vec<u8>)
    ensures
        r@ == brotli_of(data@),
        brotli_plain(r@) == Some(data@),
{
    let mut out: Vec<u8> = Vec::new();
    {
        let mut writer = brotli::CompressorWriter::with_params(
            &mut out,
            4096,
            &brotli::enc::BrotliEncoderParams::default(),
        );
        std::io::Write::write_all(&mut writer, data.as_slice()).expect("a Vec sink cannot fail");
    }
    out
}

/// Relies on `brotli::BrotliDecompress`: decoding is a function of the input
/// bytes alone, recovering the original bytes of a well-formed stream and
/// reporting an error otherwise.
#[verifier::external_body]
fn brotli_decompress(data: &Vec<u8>) -> (r: Option<Vec<u8>>)
    ensures
        opt_bytes(r) == brotli_plain(data@),
{
    let mut out: Vec<u8> = Vec::new();
    match brotli::BrotliDecompress(&mut data.as_slice(), &mut out) {
        Ok(()) => Some(out),
        Err(_) => None,
    }
}

/// Relies on `flate2::write::GzEncoder` at `Compression::default()`: the
/// member it writes is a function of the input bytes alone (the header holds
/// a zero timestamp and a fixed operating-system byte, chosen by the crate
/// for reproducible streams), and `flate2::read::GzDecoder` recovers exactly
/// the input from it. Writing into a `Vec` cannot fail.
#[verifier::external_body]
fn gzip_compress(data: &Vec<u8>) -> (r: Vec<u8>)
    ensures
        r@ == gzip_of(data@),
        gzip_plain(r@) == Some(data@),
{
    let mut encoder = flate2::write::GzEncoder::new(Vec::new(), flate2::Compression::default());
    std::io::Write::write_all(&mut encoder, data.as_slice()).expect("a Vec sink cannot fail");
    encoder.finish().expect("a Vec sink cannot fail")
}

/// Relies on `flate2::read::GzDecoder`: decoding is a function of the input
/// bytes alone, recovering the original bytes of a well-formed member and
/// reporting an error otherwise.
#[verifier::external_body]
fn gzip_decompress(data: &Vec<u8>) -> (r: Option<Vec<u8>>)
    ensures
        opt_bytes(r) == gzip_plain(data@),
{
    let mut out: Vec<u8> = Vec::new();
    let mut decoder = flate2::read::GzDecoder::new(data.as_slice());
    match std::io::Read::read_to_end(&mut decoder, &mut out) {
        Ok(_) => Some(out),
        Err(_) => None,
    }
}

/// The compressed form of `data` under the configured codec.
pub open spec fn spec_compressed(codec: CodecKind, data: Seq<u8>) -> Seq<u8>
    recommends
        codec.is_configured(),
{
    if codec == CodecKind::Brotli {
        brotli_of(data)
    } else {
        gzip_of(data)
    }
}

/// What the decompressor of the configured codec recovers from `data`.
pub open spec fn spec_decompressed(codec: CodecKind, data: Seq<u8>) -> Option<Seq<u8>>
    recommends
        codec.is_configured(),
{
    if codec == CodecKind::Brotli {
        brotli_plain(data)
    } else {
        gzip_plain(data)
    }
}

/// Compresses a whole buffer with the configured codec. The artifact is
/// fixed by codec and input alone, and the matching decompressor recovers
/// the input from it, so no truncated artifact is ever handed back as valid.
pub fn compress_bytes(codec: CodecKind, data: &Vec<u8>) -> (r: Vec<u8>)
    requires
        codec.is_configured(),
    ensures
        r@ == spec_compressed(codec, data@),
        spec_decompressed(codec, r@) == Some(data@),
{
    if codec == CodecKind::Brotli {
        brotli_compress(data)
    } else {
        gzip_compress(data)
    }
}

/// Decompresses a whole buffer with the configured codec; `None` reports a
/// stream the codec does not accept.
pub fn decompress_bytes(codec: CodecKind, data: &Vec<u8>) -> (r: Option<Vec<u8>>)
    requires
        codec.is_configured(),
    ensures
        opt_bytes(r) == spec_decompressed(codec, data@),
{
    if codec == CodecKind::Brotli {
        brotli_decompress(data)
    } else {
        gzip_decompress(data)
    }
}

/// Round trip: decompressing a produced artifact with the matching codec
/// yields bytes identical to the original buffer, for either configured
/// codec.
pub fn compress_roundtrip(codec: CodecKind, data: &Vec<u8>) -> (r: Vec<u8>)
    requires
        codec.is_configured(),
    ensures
        r@ == data@,
{
    let artifact = compress_bytes(codec, data);
    let recovered = decompress_bytes(codec, &artifact);
    recovered.unwrap()
}

} // verus!

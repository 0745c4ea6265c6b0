use perseus_compress::CodecKind;
use perseus_compress::ConfigError;
use perseus_compress::compress_bytes;
use perseus_compress::compress_roundtrip;
use perseus_compress::decompress_bytes;
use perseus_compress::validate_codec;

#[test]
fn gzip_roundtrip_hello() {
    let data = b"hello".to_vec();
    let artifact = compress_bytes(CodecKind::Gzip, &data);
    assert_ne!(artifact, data);
    assert_eq!(&artifact[0..2], &[0x1f, 0x8b]);
    assert_eq!(decompress_bytes(CodecKind::Gzip, &artifact), Some(data));
}

#[test]
fn brotli_roundtrip_world() {
    let data = b"world".to_vec();
    let artifact = compress_bytes(CodecKind::Brotli, &data);
    assert_ne!(artifact, data);
    assert_eq!(decompress_bytes(CodecKind::Brotli, &artifact), Some(data));
}

#[test]
fn roundtrip_empty_buffer() {
    let data: Vec<u8> = Vec::new();
    for codec in [CodecKind::Brotli, CodecKind::Gzip] {
        let artifact = compress_bytes(codec, &data);
        assert_eq!(decompress_bytes(codec, &artifact), Some(Vec::new()));
    }
}

#[test]
fn roundtrip_large_repetitive_buffer() {
    let data: Vec<u8> = (0..20_000u32).map(|i| (i % 251) as u8).collect();
    for codec in [CodecKind::Brotli, CodecKind::Gzip] {
        let artifact = compress_bytes(codec, &data);
        assert!(artifact.len() < data.len());
        assert_eq!(decompress_bytes(codec, &artifact), Some(data.clone()));
    }
}

#[test]
fn compression_is_deterministic() {
    let data = b"the same bytes, twice over".to_vec();
    for codec in [CodecKind::Brotli, CodecKind::Gzip] {
        let first = compress_bytes(codec, &data);
        let second = compress_bytes(codec, &data);
        assert_eq!(first, second);
    }
}

#[test]
fn gzip_artifact_accepted_by_external_decoder() {
    let data = b"hello".to_vec();
    let artifact = compress_bytes(CodecKind::Gzip, &data);
    let mut recovered: Vec<u8> = Vec::new();
    let mut decoder = flate2::read::GzDecoder::new(artifact.as_slice());
    std::io::Read::read_to_end(&mut decoder, &mut recovered).unwrap();
    assert_eq!(recovered, data);
}

#[test]
fn brotli_artifact_accepted_by_external_decoder() {
    let data = b"hello".to_vec();
    let artifact = compress_bytes(CodecKind::Brotli, &data);
    let mut recovered: Vec<u8> = Vec::new();
    brotli::BrotliDecompress(&mut artifact.as_slice(), &mut recovered).unwrap();
    assert_eq!(recovered, data);
}

#[test]
fn decompress_rejects_garbage() {
    let garbage = b"this is not a compressed stream".to_vec();
    assert_eq!(decompress_bytes(CodecKind::Gzip, &garbage), None);
    assert_eq!(decompress_bytes(CodecKind::Brotli, &garbage), None);
}

#[test]
fn roundtrip_entry_point_recovers_input() {
    let data = b"round and round".to_vec();
    assert_eq!(compress_roundtrip(CodecKind::Brotli, &data), data);
    assert_eq!(compress_roundtrip(CodecKind::Gzip, &data), data);
}

#[test]
fn unconfigured_codec_is_rejected_eagerly() {
    assert_eq!(
        validate_codec(CodecKind::Unconfigured),
        Err(ConfigError::UnconfiguredCodec)
    );
    assert_eq!(validate_codec(CodecKind::Brotli), Ok(()));
    assert_eq!(validate_codec(CodecKind::Gzip), Ok(()));
}

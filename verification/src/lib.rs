//! Post-build asset compression: resolves a configured set of build-output
//! files through shell-style glob patterns, derives a deterministic sibling
//! path for each selected file, and compresses the file's bytes with a
//! single configured codec (Brotli or Gzip).
//!
//! The host build system triggers the pipeline after a successful build or
//! export; the caller performs the file reads and writes and hands this
//! library plain paths and byte buffers.

pub mod codec;
pub mod pipeline;
pub mod selector;

pub use codec::CodecKind;
pub use codec::ConfigError;
pub use codec::compress_bytes;
pub use codec::compress_roundtrip;
pub use codec::decompress_bytes;
pub use codec::validate_codec;
pub use pipeline::CompressionOptions;
pub use pipeline::compress_one;
pub use pipeline::compressed_path;
pub use pipeline::selected_files;
pub use selector::resolve;
pub use selector::select_files;

//! The compression pipeline: the master switch, the deterministic
//! derivation of each artifact's sibling path, and the per-file compression
//! step. The caller owns the file reads and writes; it hands this module
//! plain paths and byte buffers and receives the artifact to write back,
//! one file at a time, aborting the run on the first hard failure.

use vstd::prelude::*;

use crate::codec::CodecKind;
use crate::codec::compress_bytes;
use crate::codec::spec_compressed;
use crate::codec::spec_decompressed;
use crate::selector::glob_parses;
use crate::selector::resolve;
use crate::selector::spec_no_dups;

verus! {

use vstd::string::StringExecFns;

/// Options for the auto-compressor, constructed once per build invocation
/// and immutable for the duration of one run.
pub struct CompressionOptions {
    /// Globs for the files to compress.
    pub patterns: Vec<String>,
    /// Globs for files removed again from the matched set.
    pub exclude: Vec<String>,
    /// The master switch: with it off, a run is a no-op success that never
    /// touches the filesystem, however malformed the globs are.
    pub should_run: bool,
}

impl Default for CompressionOptions {
    /// The stock configuration: the style sheets, code bundles and binary
    /// modules of the build output directory, nothing excluded, and the
    /// compressor switched on.
    fn default() -> (r: Self)
        ensures
            r.patterns@.len() == 3,
            r.patterns@[0]@ == "./dist/static/**/*.css"@,
            r.patterns@[1]@ == "./dist/pkg/**/*.wasm"@,
            r.patterns@[2]@ == "./dist/pkg/**/*.js"@,
            r.exclude@.len() == 0,
            r.should_run,
    {
        let mut patterns: Vec<String> = Vec::new();
        patterns.push(String::from_str("./dist/static/**/*.css"));
        patterns.push(String::from_str("./dist/pkg/**/*.wasm"));
        patterns.push(String::from_str("./dist/pkg/**/*.js"));
        CompressionOptions { patterns, exclude: Vec::new(), should_run: true }
    }
}

/// The file-name suffix a codec appends to a compressed artifact's path.
pub open spec fn spec_suffix(codec: CodecKind) -> Seq<char>
    recommends
        codec.is_configured(),
{
    if codec == CodecKind::Brotli {
        ".br"@
    } else {
        ".gz"@
    }
}

/// The path's last segment is `.` or `..`, which names a directory, never
/// a file.
pub open spec fn spec_dot_segment_at_end(path: Seq<char>) -> bool {
    ||| (path.len() == 1 && path[0] == '.')
    ||| (path.len() == 2 && path[0] == '.' && path[1] == '.')
    ||| (path.len() >= 2 && path[path.len() - 1] == '.' && path[path.len() - 2] == '/')
    ||| (path.len() >= 3 && path[path.len() - 1] == '.' && path[path.len() - 2] == '.'
        && path[path.len() - 3] == '/')
}

/// A path with a file-name component: nonempty, not ending in a path
/// separator, and not ending in a `.` or `..` segment. Globs only match
/// regular files, so every selected path has one; a bare directory is a
/// contract violation of the caller.
pub open spec fn spec_has_file_name(path: Seq<char>) -> bool {
    path.len() > 0 && path[path.len() - 1] != '/' && !spec_dot_segment_at_end(path)
}

/// Derives the artifact's path: the original path with the codec-specific
/// suffix appended, so the artifact sits in the same directory as the
/// original file.
pub fn compressed_path(original_path: &str, codec: CodecKind) -> (r: String)
    requires
        codec.is_configured(),
        spec_has_file_name(original_path@),
    ensures
        r@ == original_path@ + spec_suffix(codec),
{
    let suffix: &str = if codec == CodecKind::Brotli {
        ".br"
    } else {
        ".gz"
    };
    String::from_str(original_path).concat(suffix)
}

/// One file's step of the pipeline: derive the sibling path and compress
/// the file's bytes. The artifact is complete and independently
/// decompressible; the codec's decompressor recovers the contents exactly.
pub fn compress_one(codec: CodecKind, original_path: &str, contents: &Vec<u8>) -> (r: (
    String,
    Vec<u8>,
))
    requires
        codec.is_configured(),
        spec_has_file_name(original_path@),
    ensures
        r.0@ == original_path@ + spec_suffix(codec),
        r.1@ == spec_compressed(codec, contents@),
        spec_decompressed(codec, r.1@) == Some(contents@),
{
    let out_path = compressed_path(original_path, codec);
    let artifact = compress_bytes(codec, contents);
    (out_path, artifact)
}

/// The file set one run will compress. With the master switch off this is
/// empty without any pattern being expanded, so a disabled run performs no
/// filesystem work at all; otherwise it is the resolved selection, free of
/// duplicates, so each selected file yields exactly one artifact, and a
/// wanted list that is empty or wholly malformed selects nothing.
pub fn selected_files(options: &CompressionOptions) -> (r: Vec<String>)
    ensures
        !options.should_run ==> r@.len() == 0,
        options.patterns@.len() == 0 ==> r@.len() == 0,
        (forall|i: int|
            0 <= i < options.patterns@.len() ==> !glob_parses(options.patterns@[i]@)) ==> r@.len()
            == 0,
        spec_no_dups(r@),
{
    if !options.should_run {
        Vec::new()
    } else {
        resolve(&options.patterns, &options.exclude)
    }
}

/// The artifact written for a file is a function of the codec, the file's
/// path and its contents alone: two runs over the same inputs with the same
/// configuration derive the same output path and byte-identical compressed
/// bytes.
pub proof fn lemma_artifact_deterministic(
    codec: CodecKind,
    path1: Seq<char>,
    data1: Seq<u8>,
    path2: Seq<char>,
    data2: Seq<u8>,
)
    requires
        path1 == path2,
        data1 == data2,
    ensures
        path1 + spec_suffix(codec) == path2 + spec_suffix(codec),
        spec_compressed(codec, data1) == spec_compressed(codec, data2),
{
}

} // verus!

use perseus_compress::CodecKind;
use perseus_compress::CompressionOptions;
use perseus_compress::compress_one;
use perseus_compress::compressed_path;
use perseus_compress::decompress_bytes;
use perseus_compress::select_files;
use perseus_compress::selected_files;

fn strings(items: &[&str]) -> Vec<String> {
    items.iter().map(|s| s.to_string()).collect()
}

#[test]
fn naming_brotli() {
    assert_eq!(
        compressed_path("a/b/style.css", CodecKind::Brotli),
        "a/b/style.css.br"
    );
}

#[test]
fn naming_gzip() {
    assert_eq!(
        compressed_path("a/b/style.css", CodecKind::Gzip),
        "a/b/style.css.gz"
    );
}

#[test]
fn scenario_two_files_gzip() {
    let found = vec![strings(&["a.txt", "b.txt"])];
    let excluded: Vec<Vec<String>> = Vec::new();
    let mut files = select_files(&found, &excluded);
    files.sort();
    assert_eq!(files, strings(&["a.txt", "b.txt"]));

    let contents = [b"hello".to_vec(), b"world".to_vec()];
    let mut artifact_names: Vec<String> = Vec::new();
    for (file, data) in files.iter().zip(contents.iter()) {
        let (out_path, artifact) = compress_one(CodecKind::Gzip, file, data);
        assert_eq!(decompress_bytes(CodecKind::Gzip, &artifact), Some(data.clone()));
        artifact_names.push(out_path);
    }
    assert_eq!(artifact_names, strings(&["a.txt.gz", "b.txt.gz"]));
}

#[test]
fn scenario_exclude_one_file() {
    let found = vec![strings(&["a.txt", "b.txt"])];
    let excluded = vec![strings(&["b.txt"])];
    let files = select_files(&found, &excluded);
    assert_eq!(files, strings(&["a.txt"]));

    let mut artifact_names: Vec<String> = Vec::new();
    for file in files.iter() {
        let (out_path, _) = compress_one(CodecKind::Gzip, file, &b"hello".to_vec());
        artifact_names.push(out_path);
    }
    assert_eq!(artifact_names, strings(&["a.txt.gz"]));
    assert!(!artifact_names.contains(&"b.txt.gz".to_string()));
}

#[test]
fn disabled_run_selects_nothing() {
    let options = CompressionOptions {
        patterns: strings(&["[", "Cargo.toml", "***bad***"]),
        exclude: strings(&["["]),
        should_run: false,
    };
    assert!(selected_files(&options).is_empty());
}

#[test]
fn active_run_with_no_patterns_selects_nothing() {
    let options = CompressionOptions {
        patterns: Vec::new(),
        exclude: Vec::new(),
        should_run: true,
    };
    assert!(selected_files(&options).is_empty());
}

#[test]
fn active_run_selects_resolved_files() {
    let options = CompressionOptions {
        patterns: strings(&["/*"]),
        exclude: Vec::new(),
        should_run: true,
    };
    let selected = selected_files(&options);
    assert!(!selected.is_empty());
    assert_eq!(
        selected,
        perseus_compress::resolve(&options.patterns, &options.exclude)
    );
}

#[test]
fn default_options() {
    let options = CompressionOptions::default();
    assert_eq!(
        options.patterns,
        strings(&[
            "./dist/static/**/*.css",
            "./dist/pkg/**/*.wasm",
            "./dist/pkg/**/*.js",
        ])
    );
    assert!(options.exclude.is_empty());
    assert!(options.should_run);
}

#[test]
fn artifact_bytes_match_codec_layer() {
    let data = b"stylesheet body".to_vec();
    let (out_path, artifact) = compress_one(CodecKind::Brotli, "dist/site.css", &data);
    assert_eq!(out_path, "dist/site.css.br");
    assert_eq!(
        artifact,
        perseus_compress::compress_bytes(CodecKind::Brotli, &data)
    );
    assert_eq!(decompress_bytes(CodecKind::Brotli, &artifact), Some(data));
}

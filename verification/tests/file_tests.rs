use include_dir::cache::RuntimeContentCache;
use include_dir::file::File;
use include_dir::metadata::Metadata;

fn embedded(path: &str, contents: &[u8]) -> File {
    File::new(path.to_string(), contents.to_vec(), None)
}

fn development(path: &str, prefix: &str) -> File {
    File::new(path.to_string(), Vec::new(), Some(prefix.to_string()))
}

#[test]
fn embedded_scenario() {
    let f = embedded("a/b.txt", b"hello");
    let cache = RuntimeContentCache::new();
    assert_eq!(f.path(), "a/b.txt");
    assert_eq!(f.contents(&cache), Some(&b"hello"[..]));
    assert_eq!(f.contents_utf8(&cache), Some("hello"));
}

#[test]
fn contents_deterministic() {
    let f = embedded("a/b.txt", b"hello");
    let cache = RuntimeContentCache::new();
    let first = f.contents(&cache).unwrap().to_vec();
    let second = f.contents(&cache).unwrap().to_vec();
    assert_eq!(first, second);
    assert_eq!(first, b"hello".to_vec());
}

#[test]
fn utf8_valid_multibyte() {
    let text = "h\u{e9}llo \u{1f600}";
    let f = embedded("greeting.txt", text.as_bytes());
    let cache = RuntimeContentCache::new();
    assert_eq!(f.contents_utf8(&cache), Some(text));
}

#[test]
fn utf8_invalid_gives_none() {
    let f = embedded("raw.bin", &[0xff, 0xfe, 0x68]);
    let cache = RuntimeContentCache::new();
    assert_eq!(f.contents(&cache), Some(&[0xff, 0xfe, 0x68][..]));
    assert_eq!(f.contents_utf8(&cache), None);
}

#[test]
fn utf8_truncated_multibyte_gives_none() {
    // The first byte of a two-byte encoding, with nothing after it.
    let f = embedded("cut.bin", &[0xc3]);
    let cache = RuntimeContentCache::new();
    assert_eq!(f.contents_utf8(&cache), None);
}

#[test]
fn utf8_empty_is_empty_text() {
    let f = embedded("empty.txt", b"");
    let cache = RuntimeContentCache::new();
    assert_eq!(f.contents_utf8(&cache), Some(""));
}

#[test]
fn with_metadata_attaches_without_touching_originals() {
    let f = embedded("a/b.txt", b"hello");
    let untouched = embedded("a/b.txt", b"hello");
    assert!(f.metadata().is_none());
    let g = f.with_metadata(Metadata::new(1, 2, 3));
    let m = g.metadata().expect("metadata was attached");
    assert_eq!(m.accessed(), 1);
    assert_eq!(m.created(), 2);
    assert_eq!(m.modified(), 3);
    assert_eq!(g.path(), "a/b.txt");
    let cache = RuntimeContentCache::new();
    assert_eq!(g.contents(&cache), Some(&b"hello"[..]));
    // A value equal to the consumed original is still metadata-free.
    assert!(untouched.metadata().is_none());
}

#[test]
fn debug_rendering_embedded() {
    let f = embedded("a/b.txt", b"hello");
    assert_eq!(
        f.debug_string(),
        "File { path: \"a/b.txt\", contents: \"<5 bytes>\", metadata: None }"
    );
}

#[test]
fn debug_rendering_hides_contents() {
    let f = embedded("secret.txt", b"hello");
    let rendered = f.debug_string();
    assert!(!rendered.contains("hello"));
    assert!(rendered.contains("<5 bytes>"));
}

#[test]
fn debug_rendering_zero_length() {
    let f = embedded("empty.txt", b"");
    assert_eq!(
        f.debug_string(),
        "File { path: \"empty.txt\", contents: \"<0 bytes>\", metadata: None }"
    );
}

#[test]
fn debug_rendering_large_length() {
    let f = embedded("big.bin", &vec![0u8; 12345]);
    assert_eq!(
        f.debug_string(),
        "File { path: \"big.bin\", contents: \"<12345 bytes>\", metadata: None }"
    );
}

#[test]
fn debug_rendering_metadata_and_prefix() {
    let f = File::new("a/b.txt".to_string(), Vec::new(), Some("/srv/assets".to_string()))
        .with_metadata(Metadata::new(10, 20, 30));
    assert_eq!(
        f.debug_string(),
        "File { path: \"a/b.txt\", contents: \"<0 bytes>\", \
         metadata: Some(Metadata { accessed: 10, created: 20, modified: 30 }), \
         prefix: \"/srv/assets\" }"
    );
}

#[test]
fn development_unread_resolves_to_nothing() {
    // No backing read has happened: the accessor reports that a read is
    // needed rather than fabricating empty bytes.
    let f = development("a/b.txt", "/srv/assets");
    let cache = RuntimeContentCache::new();
    assert_eq!(f.contents(&cache), None);
    assert_eq!(f.contents_utf8(&cache), None);
}

#[test]
fn development_real_path_joins_prefix() {
    let f = development("a/b.txt", "/srv/assets");
    assert_eq!(f.real_path(), Some("/srv/assets/a/b.txt".to_string()));
    let e = embedded("a/b.txt", b"hello");
    assert_eq!(e.real_path(), None);
}

#[test]
fn development_first_read_wins() {
    let f = development("a/b.txt", "/srv/assets");
    let mut cache = RuntimeContentCache::new();
    f.complete_read(&mut cache, b"hello".to_vec());
    assert_eq!(f.contents(&cache), Some(&b"hello"[..]));
    // The on-disk file changes to "world" and another read completes: the
    // cache is never invalidated mid-process.
    f.complete_read(&mut cache, b"world".to_vec());
    assert_eq!(f.contents(&cache), Some(&b"hello"[..]));
    assert_eq!(f.contents_utf8(&cache), Some("hello"));
}

#[test]
fn development_files_share_one_cache() {
    let f = development("a/b.txt", "/srv/assets");
    let g = development("a/b.txt", "/srv/assets");
    let other = development("c.txt", "/srv/assets");
    let mut cache = RuntimeContentCache::new();
    f.complete_read(&mut cache, b"hello".to_vec());
    // A second file with the same path sees the first file's read.
    assert_eq!(g.contents(&cache), Some(&b"hello"[..]));
    // A different path is still unresolved.
    assert_eq!(other.contents(&cache), None);
}

#[test]
fn equality_compares_path_contents_metadata_and_strategy() {
    let f = embedded("a/b.txt", b"hello");
    assert!(f == embedded("a/b.txt", b"hello"));
    assert!(f != embedded("a/c.txt", b"hello"));
    assert!(f != embedded("a/b.txt", b"world"));
    assert!(f != embedded("a/b.txt", b"hello").with_metadata(Metadata::new(1, 2, 3)));
    assert!(f != File::new("a/b.txt".to_string(), b"hello".to_vec(), Some("/srv".to_string())));
    let d = development("a/b.txt", "/srv");
    assert!(d == development("a/b.txt", "/srv"));
    assert!(d != development("a/b.txt", "/other"));
    let m = embedded("a/b.txt", b"hello").with_metadata(Metadata::new(1, 2, 3));
    assert!(m == embedded("a/b.txt", b"hello").with_metadata(Metadata::new(1, 2, 3)));
    assert!(m != embedded("a/b.txt", b"hello").with_metadata(Metadata::new(1, 2, 4)));
}

#[test]
fn metadata_round_trip() {
    let m = Metadata::new(11, 22, 33);
    assert_eq!(m.accessed(), 11);
    assert_eq!(m.created(), 22);
    assert_eq!(m.modified(), 33);
    assert_eq!(m, Metadata::new(11, 22, 33));
    assert_ne!(m, Metadata::new(11, 22, 34));
}

use script_runner::errors::RunError;
use script_runner::source::ContentKind;
use script_runner::source::SourceCache;
use script_runner::source::check_file_url;
use script_runner::source::inject;
use script_runner::source::to_local_path;
use script_runner::utf8::validate_utf8;

#[test]
fn utf8_judgement_matches_std() {
    let cases: Vec<Vec<u8>> = vec![
        Vec::new(),
        b"plain ascii".to_vec(),
        "héllo wörld".as_bytes().to_vec(),
        vec![0xe2, 0x82, 0xac],
        vec![0xf0, 0x9f, 0x92, 0x96],
        vec![0x80],
        vec![0xc0, 0x80],
        vec![0xc1, 0xbf],
        vec![0xe0, 0x80, 0x80],
        vec![0xed, 0xa0, 0x80],
        vec![0xf4, 0x90, 0x80, 0x80],
        vec![0xe2, 0x82],
        vec![0xf0, 0x9f, 0x92],
        vec![0x63, 0xff],
        vec![0xfe, 0xff],
        vec![0xf5, 0x80, 0x80, 0x80],
    ];
    for bytes in cases {
        assert_eq!(
            validate_utf8(&bytes),
            std::str::from_utf8(&bytes).is_ok(),
            "disagreement on {:?}",
            bytes
        );
    }
}

#[test]
fn file_urls_are_recognised() {
    assert!(check_file_url(&b"file:///main.ts".to_vec()));
    assert!(check_file_url(&b"file:///a".to_vec()));
    assert!(!check_file_url(&b"file://".to_vec()));
    assert!(!check_file_url(&b"https://example.com/x.ts".to_vec()));
    assert!(!check_file_url(&b"".to_vec()));
}

#[test]
fn local_path_strips_the_scheme() {
    assert_eq!(to_local_path(&b"file:///main.ts".to_vec()), b"/main.ts".to_vec());
    assert_eq!(to_local_path(&b"file:///tmp/x.js".to_vec()), b"/tmp/x.js".to_vec());
}

#[test]
fn injection_registers_a_resolvable_record() {
    let mut cache = SourceCache::new();
    let spec = b"file:///a.ts".to_vec();
    inject(&mut cache, &spec, b"let x = 1;".to_vec(), ContentKind::TypedScript).unwrap();
    let record = cache.lookup(&spec).expect("must resolve like a real file");
    assert_eq!(record.specifier, spec);
    assert_eq!(record.local_path, b"/a.ts".to_vec());
    assert_eq!(record.body, b"let x = 1;".to_vec());
}

#[test]
fn second_injection_wins_for_all_later_lookups() {
    let mut cache = SourceCache::new();
    let spec = b"file:///a.ts".to_vec();
    inject(&mut cache, &spec, b"first".to_vec(), ContentKind::TypedScript).unwrap();
    inject(&mut cache, &spec, b"second".to_vec(), ContentKind::Unclassified).unwrap();
    let record = cache.lookup(&spec).unwrap();
    assert_eq!(record.body, b"second".to_vec());
    assert_eq!(record.content_kind, ContentKind::Unclassified);
}

#[test]
fn distinct_specifiers_do_not_shadow_each_other() {
    let mut cache = SourceCache::new();
    let a = b"file:///a.ts".to_vec();
    let b = b"file:///b.ts".to_vec();
    inject(&mut cache, &a, b"aaa".to_vec(), ContentKind::TypedScript).unwrap();
    inject(&mut cache, &b, b"bbb".to_vec(), ContentKind::TypedScript).unwrap();
    assert_eq!(cache.lookup(&a).unwrap().body, b"aaa".to_vec());
    assert_eq!(cache.lookup(&b).unwrap().body, b"bbb".to_vec());
    let missing = b"file:///c.ts".to_vec();
    assert!(cache.lookup(&missing).is_none());
}

#[test]
fn failed_injection_leaves_the_cache_alone() {
    let mut cache = SourceCache::new();
    let spec = b"file:///a.ts".to_vec();
    inject(&mut cache, &spec, b"good".to_vec(), ContentKind::TypedScript).unwrap();
    let result = inject(&mut cache, &spec, vec![0xff], ContentKind::TypedScript);
    assert!(matches!(result, Err(RunError::Decode)));
    assert_eq!(cache.lookup(&spec).unwrap().body, b"good".to_vec());
}

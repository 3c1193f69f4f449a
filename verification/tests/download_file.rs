use komac::download_file::{
    disposition_name, download_urls, file_name_for, get_file_name, last_modified, process_file,
    process_files, url_name, Date, Download, DownloadedFile,
};
use komac::text::{first_index, stripped, tail_after, Strip};
use komac::file_analyser::FileAnalyser;
use komac::types::architecture::Architecture;
use komac::types::guid::Guid;
use komac::types::installer_type::InstallerType;

fn chars(text: &str) -> Vec<char> {
    text.chars().collect()
}

fn text(chars: Option<Vec<char>>) -> Option<String> {
    chars.map(|chars| chars.into_iter().collect())
}

const FALLBACK: Guid = Guid { value: 0x0123_4567_89ab_4def_8123_4567_89ab_cdef };

#[test]
fn test_sha_256_of_nothing() {
    let download = Download::new(0);
    assert_eq!(
        download.finish(),
        "E3B0C44298FC1C149AFBF4C8996FB92427AE41E4649B934CA495991B7852B855"
    );
}

#[test]
fn test_sha_256_of_abc() {
    let mut download = Download::new(3);
    assert_eq!(download.update(b"abc"), 3);
    assert_eq!(
        download.finish(),
        "BA7816BF8F01CFEA414140DE5DAE2223B00361A396177A9CB410FF61F20015AD"
    );
}

#[test]
fn test_sha_256_in_chunks() {
    let mut download = Download::new(3);
    assert_eq!(download.update(b"a"), 1);
    assert_eq!(download.update(b""), 1);
    assert_eq!(download.update(b"bc"), 3);
    assert_eq!(download.position(), 3);
    let digest = download.finish();
    assert_eq!(digest, "BA7816BF8F01CFEA414140DE5DAE2223B00361A396177A9CB410FF61F20015AD");
    assert_eq!(digest.len(), 64);
}

#[test]
fn test_sha_256_depends_on_the_order() {
    let mut forward = Download::new(2);
    forward.update(b"a");
    forward.update(b"b");
    let mut backward = Download::new(2);
    backward.update(b"b");
    backward.update(b"a");
    assert_ne!(forward.finish(), backward.finish());
}

#[test]
fn test_position_stays_within_the_total() {
    let mut download = Download::new(5);
    assert_eq!(download.position(), 0);
    assert_eq!(download.update(b"abc"), 3);
    assert_eq!(download.update(b"abc"), 5);
    assert_eq!(download.update(b"abc"), 5);
    let mut download = Download::new(u64::MAX);
    assert_eq!(download.update(b"abc"), 3);
    let mut download = Download::new(0);
    assert_eq!(download.update(b"abc"), 0);
}

#[test]
fn test_last_modified() {
    assert_eq!(
        last_modified(Some("Wed, 21 Oct 2015 07:28:00 GMT")),
        Some(Date { year: 2015, month: 10, day: 21 })
    );
    assert_eq!(
        last_modified(Some("Sat, 29 Feb 2020 23:59:59 +0200")),
        Some(Date { year: 2020, month: 2, day: 29 })
    );
    assert_eq!(last_modified(Some("yesterday")), None);
    assert_eq!(last_modified(Some("")), None);
    assert_eq!(last_modified(None), None);
}

#[test]
fn test_download_urls() {
    let urls = vec![
        "https://a/1".to_owned(),
        "https://b/2".to_owned(),
        "https://a/1".to_owned(),
        "https://A/1".to_owned(),
        "https://b/2".to_owned(),
        "https://c/3".to_owned(),
    ];
    assert_eq!(download_urls(urls), ["https://a/1", "https://b/2", "https://A/1", "https://c/3"]);
    assert!(download_urls(Vec::new()).is_empty());
}

#[test]
fn test_strip() {
    assert_eq!(stripped(&chars("  \ta b \r\n"), Strip::Spaces), chars("a b"));
    assert_eq!(stripped(&chars("   "), Strip::Spaces), chars(""));
    assert_eq!(stripped(&chars("\"\"a\"b\""), Strip::Quotes), chars("a\"b"));
    assert_eq!(stripped(&chars("\"a"), Strip::Quotes), chars("a"));
    assert_eq!(stripped(&chars("//a/b//"), Strip::Slashes), chars("a/b"));
    assert_eq!(stripped(&chars(""), Strip::Slashes), chars(""));
}

#[test]
fn test_first_index_and_tail() {
    assert_eq!(first_index(&chars("a=b=c"), '='), 1);
    assert_eq!(first_index(&chars("abc"), '='), 3);
    assert_eq!(first_index(&chars(""), '='), 0);
    assert_eq!(tail_after(&chars("a/b/c"), '/'), chars("c"));
    assert_eq!(tail_after(&chars("abc"), '/'), chars("abc"));
    assert_eq!(tail_after(&chars("abc/"), '/'), chars(""));
}

#[test]
fn test_disposition_name() {
    let name = |header: &str| text(disposition_name(&chars(header)));
    assert_eq!(name("attachment; filename=\"setup.exe\"").as_deref(), Some("setup.exe"));
    assert_eq!(name("attachment; filename=setup.exe").as_deref(), Some("setup.exe"));
    assert_eq!(name("attachment;filename = \"a b.msi\" ").as_deref(), Some("a b.msi"));
    assert_eq!(
        name("attachment; size=3; filename*=UTF-8''a.zip; filename=b.zip").as_deref(),
        Some("UTF-8''a.zip")
    );
    assert_eq!(name("attachment; name=x; filename=\"a=b.exe\"").as_deref(), Some("a=b.exe"));
    assert_eq!(name("attachment; filename=\"\"").as_deref(), Some(""));
    assert_eq!(name("attachment"), None);
    assert_eq!(name("filename=setup.exe"), None);
    assert_eq!(name("attachment; filename"), None);
    assert_eq!(name("attachment; Filename=setup.exe"), None);
    assert_eq!(name(""), None);
}

#[test]
fn test_url_name() {
    let name = |url: &str| text(url_name(&chars(url)));
    assert_eq!(name("https://h/p/app-1.0.zip").as_deref(), Some("app-1.0.zip"));
    assert_eq!(name("https://h/p/app-1.0.zip?x=1/2#top/3").as_deref(), Some("app-1.0.zip"));
    assert_eq!(name("https://h/p/dir/").as_deref(), Some("dir"));
    assert_eq!(name("https://h/p/dir///").as_deref(), Some("dir"));
    assert_eq!(name("https://h/"), None);
    assert_eq!(name("https://h"), None);
    assert_eq!(name("https://h?x=/a"), None);
    assert_eq!(name("dir/file.exe").as_deref(), Some("file.exe"));
    assert_eq!(name(""), None);
}

#[test]
fn test_file_name_from_the_header() {
    assert_eq!(
        file_name_for(
            "https://h/p/app-1.0.zip",
            Some("attachment; filename=\"setup.exe\""),
            FALLBACK
        ),
        "setup.exe"
    );
}

#[test]
fn test_file_name_from_the_url() {
    assert_eq!(file_name_for("https://h/p/app-1.0.zip", None, FALLBACK), "app-1.0.zip");
    assert_eq!(
        file_name_for("https://h/p/app-1.0.zip", Some("inline"), FALLBACK),
        "app-1.0.zip"
    );
    assert_eq!(
        file_name_for("https://h/p/app-1.0.zip", Some("attachment; filename=\"\""), FALLBACK),
        "app-1.0.zip"
    );
}

#[test]
fn test_file_name_from_the_fallback() {
    assert_eq!(
        file_name_for("https://h/", None, FALLBACK),
        "01234567-89ab-4def-8123-456789abcdef"
    );
}

#[test]
fn test_get_file_name() {
    assert_eq!(
        get_file_name("https://h/x", Some("attachment; filename=\"setup.exe\"")),
        "setup.exe"
    );
    assert_eq!(get_file_name("https://h/p/app-1.0.zip", None), "app-1.0.zip");
    let name = get_file_name("https://h/", None);
    assert_eq!(name.len(), 36);
    for (i, c) in name.chars().enumerate() {
        match i {
            8 | 13 | 18 | 23 => assert_eq!(c, '-'),
            14 => assert_eq!(c, '4'),
            19 => assert!(matches!(c, '8' | '9' | 'a' | 'b')),
            _ => assert!(c.is_ascii_digit() || ('a'..='f').contains(&c)),
        }
    }
    assert_ne!(name, get_file_name("https://h/", None));
}

fn analysed() -> FileAnalyser {
    FileAnalyser {
        platform: None,
        minimum_os_version: None,
        architecture: Architecture::X86,
        installer_type: InstallerType::Exe,
        installer_sha_256: String::new(),
        signature_sha_256: None,
        package_family_name: None,
        product_code: None,
        product_language: None,
        last_modified: None,
        file_name: "setup.exe".to_owned(),
        copyright: Some("(c)".to_owned()),
        package_name: None,
        publisher: None,
        msi: None,
        zip: None,
    }
}

#[test]
fn test_process_file() {
    let file = DownloadedFile {
        url: "https://example.com/Setup-ARM64.exe".to_owned(),
        sha_256: "AB".repeat(32),
        file_name: "setup.exe".to_owned(),
        last_modified: Some(Date { year: 2024, month: 5, day: 6 }),
    };
    let processed = process_file(file, analysed());
    assert_eq!(processed.architecture, Architecture::Arm64);
    assert_eq!(processed.installer_sha_256, "AB".repeat(32));
    assert_eq!(processed.last_modified, Some(Date { year: 2024, month: 5, day: 6 }));
    assert_eq!(processed.installer_type, InstallerType::Exe);
    assert_eq!(processed.file_name, "setup.exe");
    assert_eq!(processed.copyright.as_deref(), Some("(c)"));
}

#[test]
fn test_process_files() {
    let file = |url: &str, digest: &str| DownloadedFile {
        url: url.to_owned(),
        sha_256: digest.to_owned(),
        file_name: "setup.exe".to_owned(),
        last_modified: None,
    };
    let processed = process_files(vec![
        (file("https://example.com/a-x64.exe", "AA"), analysed()),
        (file("https://example.com/b.exe", "BB"), analysed()),
        (file("https://example.com/c_arm_.exe", "CC"), analysed()),
    ]);
    let summary: Vec<(&str, Architecture, &str)> = processed
        .iter()
        .map(|(url, file)| (url.as_str(), file.architecture, file.installer_sha_256.as_str()))
        .collect();
    assert_eq!(
        summary,
        [
            ("https://example.com/a-x64.exe", Architecture::X64, "AA"),
            ("https://example.com/b.exe", Architecture::X86, "BB"),
            ("https://example.com/c_arm_.exe", Architecture::Arm, "CC"),
        ]
    );
    assert!(process_files(Vec::new()).is_empty());
}

#[test]
fn test_process_file_keeps_the_architecture() {
    let file = DownloadedFile {
        url: "https://example.com/setup.exe".to_owned(),
        sha_256: String::new(),
        file_name: "setup.exe".to_owned(),
        last_modified: None,
    };
    let processed = process_file(file, analysed());
    assert_eq!(processed.architecture, Architecture::X86);
    assert_eq!(processed.last_modified, None);
}

use ota_update::ledger::ledger_path;
use ota_update::network::{download_destination, manifest_url};
use ota_update::paths::{file_name, join, parent_dir};
use ota_update::text::{
    decimal_string, eq_ignore_ascii_case, has_prefix, has_suffix, replace_all, same_text,
};

#[test]
fn numbers_are_written_in_decimal() {
    assert_eq!(decimal_string(0), "0");
    assert_eq!(decimal_string(7), "7");
    assert_eq!(decimal_string(10), "10");
    assert_eq!(decimal_string(1_700_000_000), "1700000000");
    assert_eq!(decimal_string(u64::MAX), "18446744073709551615");
    for n in [9u64, 99, 100, 101, 12345, 1 << 40] {
        assert_eq!(decimal_string(n), n.to_string());
    }
}

#[test]
fn prefixes_and_suffixes() {
    assert!(has_prefix("https://x", "http"));
    assert!(has_prefix("http", "http"));
    assert!(has_prefix("anything", ""));
    assert!(!has_prefix("htt", "http"));
    assert!(!has_prefix("ftp://x", "http"));
    assert!(has_suffix("0.0.1rc", "rc"));
    assert!(has_suffix("rc", "rc"));
    assert!(has_suffix("x", ""));
    assert!(!has_suffix("c", "rc"));
    assert!(!has_suffix("0.0.1rb", "rc"));
    assert!(has_suffix("naïve", "ïve"));
}

#[test]
fn texts_are_compared() {
    assert!(same_text("daily", "daily"));
    assert!(same_text("", ""));
    assert!(!same_text("daily", "dail"));
    assert!(!same_text("daily", "Daily"));
    assert!(eq_ignore_ascii_case("DaIlY", "dAiLy"));
    assert!(!eq_ignore_ascii_case("daily", "dail"));
}

#[test]
fn occurrences_are_replaced_from_the_left() {
    assert_eq!(replace_all("a/blob/b/blob/c", "/blob/", "/"), "a/b/c");
    assert_eq!(replace_all("aaa", "aa", "b"), "ba");
    assert_eq!(replace_all("aaaa", "aa", "b"), "bb");
    assert_eq!(replace_all("abc", "x", "y"), "abc");
    assert_eq!(replace_all("abc", "abc", ""), "");
    assert_eq!(replace_all("", "a", "b"), "");
    assert_eq!(replace_all("abc", "", "-"), "abc");
    assert_eq!(replace_all("aXbXc", "X", "XX"), "aXXbXXc");
    for (s, from, to) in [("github.com/github.com", "github.com", "raw"), ("xxyxx", "xx", "x"), ("ééé", "é", "e")] {
        assert_eq!(replace_all(s, from, to), s.replace(from, to));
    }
}

#[test]
fn a_page_address_becomes_a_file_address() {
    assert_eq!(
        manifest_url("https://github.com/acme/fw/blob/main/manifest.toml"),
        "https://raw.githubusercontent.com/acme/fw/main/manifest.toml"
    );
    assert_eq!(manifest_url("https://example.org/manifest.toml"), "https://example.org/manifest.toml");
    assert_eq!(manifest_url(""), "");
}

#[test]
fn an_artifact_goes_below_the_staging_directory() {
    assert_eq!(
        download_destination("https://example.org/releases/fw-1.2.0.tar.gz", "/srv/firmware/staging"),
        "/srv/firmware/staging/fw-1.2.0.tar.gz"
    );
    assert_eq!(download_destination("fw.tar.gz", "staging"), "staging/fw.tar.gz");
    assert_eq!(download_destination("https://example.org/dir/", "/s"), "/s/");
}

#[test]
fn the_name_stands_behind_the_last_slash() {
    assert_eq!(file_name("a/b/c.txt"), "c.txt");
    assert_eq!(file_name("c.txt"), "c.txt");
    assert_eq!(file_name("a/b/"), "");
    assert_eq!(file_name(""), "");
    assert_eq!(file_name("/"), "");
}

#[test]
fn paths_are_joined_with_one_slash() {
    assert_eq!(join("/opt/app", "releases"), "/opt/app/releases");
    assert_eq!(join("/opt/app/", "releases"), "/opt/app/releases");
    assert_eq!(join("", "releases"), "releases");
    assert_eq!(join("/opt/app", "/abs"), "/abs");
    assert_eq!(join("/opt/app", ""), "/opt/app/");
    assert_eq!(join("/", "x"), "/x");
    for (a, b) in [("/opt/app", "releases"), ("/opt/app/", "v1"), ("", "x"), ("a", "/b"), ("rel", "x/y")] {
        let expected = std::path::Path::new(a).join(b);
        assert_eq!(join(a, b), expected.to_str().unwrap());
    }
}

#[test]
fn the_parent_holds_the_path() {
    assert_eq!(parent_dir("/srv/firmware/staging"), Some("/srv/firmware/".to_string()));
    assert_eq!(parent_dir("/srv/firmware/staging/"), Some("/srv/firmware/".to_string()));
    assert_eq!(parent_dir("/staging"), Some("/".to_string()));
    assert_eq!(parent_dir("staging"), Some("".to_string()));
    assert_eq!(parent_dir("a/b"), Some("a/".to_string()));
    assert_eq!(parent_dir("/"), None);
    assert_eq!(parent_dir("///"), None);
    assert_eq!(parent_dir(""), None);
}

#[test]
fn a_trailing_dot_names_the_directory_before_it() {
    assert_eq!(parent_dir("x/."), Some("".to_string()));
    assert_eq!(parent_dir("x/./"), Some("".to_string()));
    assert_eq!(parent_dir("/srv/fw/staging/."), Some("/srv/fw/".to_string()));
    assert_eq!(parent_dir("/srv/fw/staging/././/"), Some("/srv/fw/".to_string()));
    assert_eq!(parent_dir("/."), None);
    assert_eq!(parent_dir("/./."), None);
    assert_eq!(parent_dir("."), Some("".to_string()));
    assert_eq!(parent_dir("./."), Some("".to_string()));
    assert_eq!(parent_dir("x."), Some("".to_string()));
    assert_eq!(parent_dir("a/x."), Some("a/".to_string()));
    assert_eq!(parent_dir("a/.."), Some("a/".to_string()));
    assert_eq!(parent_dir("a/.hidden"), Some("a/".to_string()));
}

#[test]
fn the_record_lies_where_the_parent_of_the_path_is() {
    for staging in [
        "/srv/firmware/staging",
        "/srv/firmware/staging/",
        "/srv/firmware/staging/.",
        "/srv//firmware//staging//",
        "/staging",
        "staging",
        "x/.",
        "x/./",
        "./x",
        "a/b/.././c",
        "a/..",
        ".",
        "..",
        "/",
        "/.",
        "",
        "//",
    ] {
        let expected = std::path::Path::new(staging).parent().map(|p| p.join("current_version.toml"));
        let found = ledger_path(staging).map(std::path::PathBuf::from);
        assert_eq!(found, expected, "{staging:?}");
    }
}

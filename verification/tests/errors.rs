use nv_getter::error::{show_status, Error};

fn texts(items: &[&str]) -> Vec<String> {
    items.iter().map(|t| t.to_string()).collect()
}

#[test]
fn outside_failures_are_reported_with_their_own_words() {
    assert_eq!(Error::LogError("no log".to_string()).to_message(), "ERROR: no log");
    assert_eq!(Error::IoError("disk full".to_string()).to_message(), "ERROR: disk full");
    assert_eq!(Error::JsonError("eof".to_string()).to_message(), "ERROR: eof");
    assert_eq!(Error::HttpError("timed out".to_string()).to_message(), "ERROR: timed out");
    assert_eq!(Error::InvalidUrl("empty host".to_string()).to_message(), "ERROR: empty host");
    assert_eq!(
        Error::Utf8ParseError("utf-8".to_string()).to_message(),
        "ERROR: malformed text in the encoding utf-8"
    );
}

#[test]
fn status_error_shows_number_and_reason() {
    assert_eq!(Error::HttpStatusError(404).to_message(), "ERROR: 404 Not Found");
    assert_eq!(Error::HttpStatusError(503).to_message(), "ERROR: 503 Service Unavailable");
    assert_eq!(Error::HttpStatusError(301).to_message(), "ERROR: 301 Moved Permanently");
    assert_eq!(Error::HttpStatusError(799).to_message(), "ERROR: 799 <unknown status code>");
    assert_eq!(Error::HttpStatusError(99).to_message(), "ERROR: 99 <unknown status code>");
    assert_eq!(Error::HttpStatusError(0).to_message(), "ERROR: 0 <unknown status code>");
    assert_eq!(Error::HttpStatusError(65535).to_message(), "ERROR: 65535 <unknown status code>");
    assert_eq!(show_status(200, Some("OK")), "200 OK");
    assert_eq!(show_status(200, None), "200 <unknown status code>");
}

#[test]
fn missing_and_invalid_options_list_the_legal_values() {
    assert_eq!(
        Error::MissingProductCategory(texts(&["Jetson", "Drive"])).to_message(),
        "ERROR: Required option --product-category is missing. Legal values:\tJetson\tDrive"
    );
    assert_eq!(
        Error::MissingProductCategory(vec![]).to_message(),
        "ERROR: Required option --product-category is missing. Legal values:"
    );
    assert_eq!(
        Error::InvalidProductCategory("X".to_string(), texts(&["Jetson"])).to_message(),
        "ERROR: Invalid value X for option --product-category. Legal values:\tJetson"
    );
    assert_eq!(
        Error::MissingTargetOS(texts(&["Linux"])).to_message(),
        "ERROR: Required option --target-os is missing. Legal values:\tLinux"
    );
    assert_eq!(
        Error::InvalidTargetOS("QNX".to_string(), texts(&["Linux", "Windows"])).to_message(),
        "ERROR: Invalid value QNX for option --target-os. Legal values:\tLinux\tWindows"
    );
    assert_eq!(
        Error::MissingRelease(texts(&["4.2", "4.3"])).to_message(),
        "ERROR: Required option --release is missing. Legal values:\t4.2\t4.3"
    );
    assert_eq!(
        Error::InvalidRelease("9".to_string(), vec![]).to_message(),
        "ERROR: Invalid value 9 for option --release. Legal values:"
    );
}

#[test]
fn catalog_errors_name_what_was_asked_for() {
    assert_eq!(
        Error::L2RepoReleaseMissingUrl("JetPack 4.2".to_string()).to_message(),
        "ERROR: The L2 repo doesn't specify a URL for the requested release JetPack 4.2."
    );
    assert_eq!(
        Error::InvalidSection("s".to_string()).to_message(),
        "ERROR: Invalid section specified s."
    );
    assert_eq!(Error::InvalidGroup("g".to_string()).to_message(), "ERROR: Invalid group specified g.");
    assert_eq!(
        Error::InvalidComponent("c".to_string()).to_message(),
        "ERROR: Invalid component specified c."
    );
}

#[test]
fn integrity_errors_show_file_and_digests() {
    assert_eq!(
        Error::UnsupportedChecksumType("sha1".to_string()).to_message(),
        "ERROR: Unsupported package checksum type specified sha1."
    );
    assert_eq!(
        Error::FileNotExist("/c/f.deb".to_string()).to_message(),
        "ERROR: The specified file does not exist: /c/f.deb"
    );
    assert_eq!(
        Error::FileDigestInvalid {
            file: "/c/f.deb".to_string(),
            cktype: "md5".to_string(),
            expected: "aa".to_string(),
            actual: "bb".to_string(),
        }
        .to_message(),
        "ERROR: The checksum for /c/f.deb was invalid md5[bb != aa]"
    );
}

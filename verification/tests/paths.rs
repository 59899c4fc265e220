use nv_getter::cache::{get_cache_dir, http_cache_dir, join_path};
use nv_getter::caching_client::{
    url_cache_key, url_cache_path, url_data_cache_path, url_metadata_cache_path,
};

#[test]
fn join_path_puts_one_separator_between_directory_and_name() {
    assert_eq!(join_path("/var/cache", "x"), "/var/cache/x");
    assert_eq!(join_path("/var/cache/", "x"), "/var/cache/x");
    assert_eq!(join_path("", "x"), "x");
    assert_eq!(join_path("/", "x"), "/x");
    assert_eq!(join_path("a", ""), "a/");
}

#[test]
fn join_path_lets_a_rooted_name_stand_for_itself() {
    assert_eq!(join_path("/var/cache", "/etc/x"), "/etc/x");
}

#[test]
fn cache_dir_is_the_application_directory_below_the_user_cache() {
    assert_eq!(get_cache_dir("/home/u/.cache", None), "/home/u/.cache/nv_getter");
    assert_eq!(
        get_cache_dir("/home/u/.cache", Some("Jetson/Linux/4.2")),
        "/home/u/.cache/nv_getter/Jetson/Linux/4.2"
    );
    assert_eq!(http_cache_dir("/home/u/.cache"), "/home/u/.cache/nv_getter/http");
}

#[test]
fn cache_key_is_the_md5_of_the_url_text() {
    assert_eq!(url_cache_key(""), "d41d8cd98f00b204e9800998ecf8427e");
    assert_eq!(
        url_cache_key("abcdefghijklmnopqrstuvwxyz"),
        "c3fcd3d76192e4007dfb496cca67e13b"
    );
}

#[test]
fn cache_key_is_the_same_on_every_call() {
    let url = "https://example.test/a.bin?x=1";
    assert_eq!(url_cache_key(url), url_cache_key(url));
    assert_eq!(url_cache_key(url).len(), 32);
    assert!(url_cache_key(url).chars().all(|c| c.is_ascii_digit() || ('a'..='f').contains(&c)));
}

#[test]
fn cache_keys_of_a_sample_of_urls_are_all_different() {
    let mut keys = std::collections::HashSet::new();
    let mut n: u32 = 0;
    while n < 5000 {
        let url = format!("https://example.test/files/{}/package-{}.deb?rev={}", n % 7, n, n / 3);
        assert!(keys.insert(url_cache_key(&url)));
        n += 1;
    }
    assert_ne!(url_cache_key("https://example.test/a"), url_cache_key("https://example.test/A"));
    assert_ne!(url_cache_key("https://example.test/a"), url_cache_key("https://example.test/a/"));
}

#[test]
fn entry_files_lie_in_the_directory_named_by_the_key() {
    let url = "abcdefghijklmnopqrstuvwxyz";
    assert_eq!(url_cache_path("/c/http", url), "/c/http/c3fcd3d76192e4007dfb496cca67e13b");
    assert_eq!(
        url_data_cache_path("/c/http", url),
        "/c/http/c3fcd3d76192e4007dfb496cca67e13b/data"
    );
    assert_eq!(
        url_metadata_cache_path("/c/http", url),
        "/c/http/c3fcd3d76192e4007dfb496cca67e13b/metadata"
    );
}

use nv_getter::error::Error;
use nv_getter::sdkm::join_url;
use nv_getter::sdkm_config::SdkmConfig;
use nv_getter::sdkm_l1::{L1Information, L1ProductCategory, L1ProductLine, L1Repo};
use nv_getter::sdkm_l2::{L2Information, L2Release, L2Repo, ReleaseNote};

fn product_line(target_os: &str, link: &str) -> L1ProductLine {
    L1ProductLine {
        target_os: target_os.to_string(),
        target_type: "target".to_string(),
        server_type: vec!["prod".to_string()],
        releases_index_url: link.to_string(),
    }
}

fn category(name: &str, lines: Vec<L1ProductLine>) -> L1ProductCategory {
    L1ProductCategory { category_name: name.to_string(), product_lines: lines }
}

fn l1(source: Option<&str>) -> L1Repo {
    L1Repo {
        source: source.map(|s| s.to_string()),
        information: L1Information {
            title: "t".to_string(),
            version: "1".to_string(),
            revision: 2,
            server_configuration_build: "b".to_string(),
        },
        product_categories: vec![
            category("Jetson", vec![product_line("Linux", "../jetson/linux.json"), product_line("QNX", "http://[bad")]),
            category("Drive", vec![product_line("Linux", "https://other.test/drive.json")]),
            category("Jetson", vec![product_line("Windows", "never.json")]),
        ],
    }
}

fn release(title: &str, link: Option<&str>) -> L2Release {
    L2Release {
        product_category: "Jetson".to_string(),
        target_os: "Linux".to_string(),
        server_type: vec![],
        id: None,
        title: title.to_string(),
        release_version: "4.2".to_string(),
        release_edition: String::new(),
        release_edition_message: String::new(),
        release_build: "b1".to_string(),
        release_revision: 1,
        min_sdkm_ver: "0.9".to_string(),
        release_message: String::new(),
        show_in_main_list: Some(true),
        release_notes: ReleaseNote {
            release_notes_title: "notes".to_string(),
            release_notes_url: "https://example.test/notes".to_string(),
            release_notes_tooltip: String::new(),
            release_notes_download: false,
        },
        pid_group_id: "1".to_string(),
        devzone_program_id: "null".to_string(),
        target_hw: vec![],
        operating_systems_support: vec![],
        operating_systems_support_warning: vec![],
        estimate_target_disk_size_in_gb: "16".to_string(),
        is_install_on_target_enabled: None,
        int_hw_support: None,
        comp_repo_url: link.map(|l| l.to_string()),
    }
}

fn l2(source: Option<&str>) -> L2Repo {
    L2Repo {
        source: source.map(|s| s.to_string()),
        information: L2Information {
            title: "t".to_string(),
            file_version: "1".to_string(),
            file_revision: 0,
            server_configuration_build: "b".to_string(),
        },
        releases: vec![
            release("JetPack 4.2", Some("4.2/l3.json")),
            release("JetPack 4.3", None),
            release("JetPack 4.4", Some("http://[bad")),
        ],
    }
}

const L1_URL: &str = "https://example.test/sdkm/main/l1.json";

#[test]
fn links_are_resolved_against_their_base() {
    assert_eq!(join_url(L1_URL, "x.json"), Ok("https://example.test/sdkm/main/x.json".to_string()));
    assert_eq!(join_url(L1_URL, "../x.json"), Ok("https://example.test/sdkm/x.json".to_string()));
    assert_eq!(join_url(L1_URL, "/x.json"), Ok("https://example.test/x.json".to_string()));
    assert_eq!(join_url(L1_URL, "//cdn.test/x"), Ok("https://cdn.test/x".to_string()));
    assert_eq!(join_url(L1_URL, "http://a.test/b?c=d"), Ok("http://a.test/b?c=d".to_string()));
    assert_eq!(join_url(L1_URL, ""), Ok(L1_URL.to_string()));
}

#[test]
fn unusable_base_or_link_is_an_invalid_url() {
    assert!(matches!(join_url("not a url", "x.json"), Err(Error::InvalidUrl(_))));
    assert!(matches!(join_url("", "x.json"), Err(Error::InvalidUrl(_))));
    assert!(matches!(join_url(L1_URL, "http://[bad"), Err(Error::InvalidUrl(_))));
    assert_eq!(
        join_url("relative/base", "x"),
        Err(Error::InvalidUrl("relative URL without a base".to_string()))
    );
}

#[test]
fn categories_and_lines_are_listed_in_catalog_order() {
    let repo = l1(None);
    assert_eq!(repo.product_categories(), vec!["Jetson", "Drive", "Jetson"]);
    assert_eq!(repo.product_categories[0].product_lines(), vec!["Linux", "QNX"]);
    assert_eq!(category("x", vec![]).product_lines(), Vec::<String>::new());
}

#[test]
fn lookups_find_the_first_item_of_the_name() {
    let repo = l1(None);
    assert_eq!(repo.get_product_category("Jetson"), Some(&repo.product_categories[0]));
    assert_eq!(repo.get_product_category("Drive"), Some(&repo.product_categories[1]));
    assert_eq!(repo.get_product_category("jetson"), None);
    assert_eq!(repo.get_product_category(""), None);
    let jetson = &repo.product_categories[0];
    assert_eq!(jetson.get_product_line("QNX"), Some(&jetson.product_lines[1]));
    assert_eq!(jetson.get_product_line("Windows"), None);
}

#[test]
fn product_url_is_the_line_link_resolved_against_the_catalog() {
    let repo = l1(Some(L1_URL));
    assert_eq!(
        repo.get_product_url("Jetson", "Linux"),
        Ok("https://example.test/sdkm/jetson/linux.json".to_string())
    );
    assert_eq!(repo.get_product_url("Drive", "Linux"), Ok("https://other.test/drive.json".to_string()));
    assert_eq!(
        repo.product_categories[0].product_lines[0].get_url(L1_URL),
        Ok("https://example.test/sdkm/jetson/linux.json".to_string())
    );
    assert_eq!(
        repo.product_categories[0].get_product_line_url(L1_URL, "Linux"),
        Ok("https://example.test/sdkm/jetson/linux.json".to_string())
    );
}

#[test]
fn product_url_fails_for_unknown_names_and_bad_links() {
    let repo = l1(Some(L1_URL));
    assert_eq!(
        repo.get_product_url("Tegra", "Linux"),
        Err(Error::InvalidProductCategory(
            "Tegra".to_string(),
            vec!["Jetson".to_string(), "Drive".to_string(), "Jetson".to_string()]
        ))
    );
    assert_eq!(
        repo.get_product_url("Jetson", "Windows"),
        Err(Error::InvalidTargetOS("Windows".to_string(), vec!["Linux".to_string(), "QNX".to_string()]))
    );
    assert!(matches!(repo.get_product_url("Jetson", "QNX"), Err(Error::InvalidUrl(_))));
    assert_eq!(
        l1(None).get_product_url("Tegra", "Linux"),
        Err(Error::InvalidProductCategory(
            "Tegra".to_string(),
            vec!["Jetson".to_string(), "Drive".to_string(), "Jetson".to_string()]
        ))
    );
}

#[test]
fn releases_are_found_by_title() {
    let repo = l2(None);
    assert_eq!(repo.releases(), vec!["JetPack 4.2", "JetPack 4.3", "JetPack 4.4"]);
    assert_eq!(repo.get_release("JetPack 4.3"), Some(&repo.releases[1]));
    assert_eq!(repo.get_release("JetPack"), None);
}

#[test]
fn release_url_is_the_component_catalog_link_resolved() {
    let repo = l2(Some("https://example.test/sdkm/jetson/linux.json"));
    assert_eq!(
        repo.get_release_url("JetPack 4.2"),
        Ok("https://example.test/sdkm/jetson/4.2/l3.json".to_string())
    );
    assert_eq!(
        repo.get_release_url("JetPack 4.3"),
        Err(Error::L2RepoReleaseMissingUrl("JetPack 4.3".to_string()))
    );
    assert!(matches!(repo.get_release_url("JetPack 4.4"), Err(Error::InvalidUrl(_))));
    assert_eq!(
        repo.get_release_url("JetPack 9"),
        Err(Error::InvalidRelease(
            "JetPack 9".to_string(),
            vec!["JetPack 4.2".to_string(), "JetPack 4.3".to_string(), "JetPack 4.4".to_string()]
        ))
    );
    assert_eq!(
        repo.releases[0].get_url("https://example.test/a/b"),
        Ok("https://example.test/a/4.2/l3.json".to_string())
    );
}

#[test]
fn default_configuration_names_the_main_catalog() {
    let config = SdkmConfig::default();
    assert_eq!(
        config.main_repo_url,
        "https://developer.download.nvidia.com/sdkmanager/sdkm-config/main/sdkml1_repo.json"
    );
    assert_eq!(config.pid_server, "P");
    assert_eq!(config.dev_zone_server, "P");
}

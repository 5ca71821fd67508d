use metal_deploy::naming::{clean_name, raw_name_from_url, service_name_for};

#[test]
fn clean_name_replaces_and_lowercases() {
    assert_eq!(clean_name("My-App.v2"), "my_app_v2");
    assert_eq!(clean_name("OpenGig.org"), "opengig_org");
    assert_eq!(clean_name("already_clean_123"), "already_clean_123");
}

#[test]
fn clean_name_of_non_ascii_characters() {
    // Each character outside a-z, A-Z, 0-9 becomes one underscore.
    assert_eq!(clean_name("Café Été"), "caf___t_");
    assert_eq!(clean_name(""), "");
}

#[test]
fn clean_name_is_idempotent_on_examples() {
    for raw in ["Hello World!", "ÄÖÜ-x", "a.b.c", "UPPER"] {
        let once = clean_name(raw);
        let twice = clean_name(&once);
        assert_eq!(once, twice);
        assert_eq!(once.chars().count(), raw.chars().count());
        assert!(once
            .chars()
            .all(|c| c.is_ascii_lowercase() || c.is_ascii_digit() || c == '_'));
    }
}

#[test]
fn raw_name_from_url_takes_last_segment_without_git() {
    assert_eq!(
        raw_name_from_url("https://github.com/torrinworx/OpenGig.org.git"),
        "OpenGig.org"
    );
    assert_eq!(raw_name_from_url("https://example.com/a/b/repo"), "repo");
    assert_eq!(raw_name_from_url("repo.git.git"), "repo");
    assert_eq!(raw_name_from_url("https://example.com/a/"), "");
    assert_eq!(raw_name_from_url("no-slashes"), "no-slashes");
}

#[test]
fn service_name_from_url_or_given_name() {
    let url = "https://github.com/torrinworx/metal-deploy-qbittorrent.git";
    assert_eq!(service_name_for(url, &None), "metal_deploy_qbittorrent");
    assert_eq!(
        service_name_for(url, &Some("My Torrent".to_string())),
        "my_torrent"
    );
    assert_eq!(
        service_name_for("https://github.com/torrinworx/OpenGig.org.git", &None),
        "opengig_org"
    );
}

use metal_deploy::console::{is_yes, question, service_names, HomeEntry};
use metal_deploy::files::{decimal_string, service_config, service_unit};
use metal_deploy::layout::{config_file_name_str, homes_root_str, ServiceLayout};

#[test]
fn unit_file_text() {
    let text = service_unit("svc", "/home/svc/.env", "/home/svc/build/run.sh");
    let expected = "[Unit]
Description=svc User Service
After=network.target

[Service]
Type=simple
ExecStartPre=/usr/bin/dbus-daemon --session --fork
EnvironmentFile=/home/svc/.env
Environment=DBUS_SESSION_BUS_ADDRESS=unix:path=/run/user/%U/bus
WorkingDirectory=/home/svc/build
ExecStart=/home/svc/build/run.sh
Restart=on-failure

[Install]
WantedBy=default.target";
    assert_eq!(text, expected);
}

#[test]
fn decimal_numbers() {
    assert_eq!(decimal_string(0), "0");
    assert_eq!(decimal_string(7), "7");
    assert_eq!(decimal_string(10), "10");
    assert_eq!(decimal_string(1730000000), "1730000000");
    assert_eq!(decimal_string(u64::MAX), u64::MAX.to_string());
}

#[test]
fn config_record_text() {
    let text = service_config("svc", "https://x/y.git", 1700000000);
    assert_eq!(
        text,
        "{\n    \"name\": \"svc\",\n    \"url\": \"https://x/y.git\",\n    \"added\": \"1700000000\"\n}"
    );
}

#[test]
fn layout_paths() {
    let l = ServiceLayout::new("svc");
    assert_eq!(l.home_dir, "/home/svc");
    assert_eq!(l.repo_dir, "/home/svc/repo");
    assert_eq!(l.build_script, "/home/svc/repo/build.sh");
    assert_eq!(l.repo_build_dir, "/home/svc/repo/build");
    assert_eq!(l.build_dir, "/home/svc/build");
    assert_eq!(l.env_template, "/home/svc/repo/.metal-deploy.env");
    assert_eq!(l.env_file, "/home/svc/.env");
    assert_eq!(l.run_script, "/home/svc/build/run.sh");
    assert_eq!(l.systemd_dir, "/home/svc/.config/systemd");
    assert_eq!(l.unit_dir, "/home/svc/.config/systemd/user");
    assert_eq!(l.unit_file, "/home/svc/.config/systemd/user/svc.service");
    assert_eq!(l.wants_dir, "/home/svc/.config/systemd/user/default.target.wants");
    assert_eq!(
        l.wants_link,
        "/home/svc/.config/systemd/user/default.target.wants/svc.service"
    );
    assert_eq!(l.config_file, "/home/svc/metal-deploy.config.json");
    assert_eq!(config_file_name_str(), "metal-deploy.config.json");
    assert_eq!(homes_root_str(), "/home");
}

#[test]
fn yes_no_answers() {
    assert_eq!(question("Do you want to continue?"), "Do you want to continue? [Y/n]: ");
    assert!(is_yes("\n"));
    assert!(is_yes("y\n"));
    assert!(is_yes("  Y  \n"));
    assert!(!is_yes("n\n"));
    assert!(!is_yes("yes\n"));
    assert!(!is_yes("yy"));
}

#[test]
fn listing_keeps_marked_utf8_entries() {
    let entries = vec![
        HomeEntry { name: Some("a".to_string()), has_config: true },
        HomeEntry { name: Some("b".to_string()), has_config: false },
        HomeEntry { name: None, has_config: true },
        HomeEntry { name: Some("c".to_string()), has_config: true },
    ];
    assert_eq!(service_names(&entries), vec!["a".to_string(), "c".to_string()]);
    assert!(service_names(&vec![]).is_empty());
}

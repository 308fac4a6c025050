use leafshell::get_versions;
use leafshell::helper::{
    classify_package_manager, detect_linux_system_info, SystemInfoError, UpdateLeafPreferences,
};

#[test]
fn debian_family_distros_use_apt() {
    assert_eq!(
        classify_package_manager(&"ubuntu".to_string(), &vec![]),
        Some("apt")
    );
    assert_eq!(
        classify_package_manager(&"debian".to_string(), &vec![]),
        Some("apt")
    );
    assert_eq!(
        classify_package_manager(&"linuxmint".to_string(), &vec!["debian".to_string()]),
        Some("apt")
    );
}

#[test]
fn red_hat_family_distros_use_rpm() {
    assert_eq!(
        classify_package_manager(&"fedora".to_string(), &vec![]),
        Some("rpm")
    );
    assert_eq!(
        classify_package_manager(&"centos".to_string(), &vec![]),
        Some("rpm")
    );
    assert_eq!(
        classify_package_manager(&"rhel".to_string(), &vec![]),
        Some("rpm")
    );
    assert_eq!(
        classify_package_manager(
            &"rocky".to_string(),
            &vec!["rhel".to_string(), "centos".to_string(), "fedora".to_string()]
        ),
        Some("rpm")
    );
}

#[test]
fn arch_family_distros_use_pacman() {
    assert_eq!(
        classify_package_manager(&"arch".to_string(), &vec![]),
        Some("pacman")
    );
    assert_eq!(
        classify_package_manager(&"manjaro".to_string(), &vec!["arch".to_string()]),
        Some("pacman")
    );
}

#[test]
fn unknown_distro_is_not_classified() {
    assert_eq!(classify_package_manager(&"gentoo".to_string(), &vec![]), None);
}

#[test]
fn detection_reports_manager_and_arch() {
    let info = detect_linux_system_info(
        "ubuntu".to_string(),
        vec!["debian".to_string()],
        "x86_64".to_string(),
    )
    .unwrap();
    assert_eq!(info.package_manager_type, "apt");
    assert_eq!(info.arch, "x86_64");
}

#[test]
fn detection_fails_on_unknown_package_manager() {
    let err = detect_linux_system_info("gentoo".to_string(), vec![], "x86_64".to_string())
        .unwrap_err();
    assert_eq!(err, SystemInfoError::UnknownPackageManager);
    assert_eq!(err.message(), "Could not determine Linux package manager type");
}

#[test]
fn preference_record_carries_plain_fields() {
    let prefs = UpdateLeafPreferences {
        enable_ipv6: true,
        prefer_ipv6: false,
        memory_logger: true,
        log_level: 2,
        api_port: 9991,
        auto_reload: false,
        user_agent: "leaf/1.0".to_string(),
        bypass_lan: true,
        bypass_lan_in_core: false,
        fake_ip: false,
        force_resolve_domain: true,
        internal_dns_server: false,
        bypass_geoip_list: Some(vec!["cn".to_string()]),
        bypass_geosite_list: None,
        reject_geoip_list: None,
        reject_geosite_list: Some(vec![]),
    };
    assert_eq!(prefs.api_port, 9991);
    assert_eq!(prefs.bypass_geoip_list, Some(vec!["cn".to_string()]));
    assert_eq!(prefs.clone(), prefs);
}

#[test]
fn version_line_names_both_versions() {
    assert_eq!(
        get_versions("0.11.2", "1.4.0"),
        "Leaf Core: 0.11.2 | App: 1.4.0"
    );
}

use replit_xray::version::{
    after_failed_upgrade, decide, parse_version_output, reconcile, startup_steps, version_field,
    version_from_release_url, Decision, Plan, Step, Version, VersionError,
};

#[test]
fn test_match_version_from_bin() {
    let text = r"Xray 1.7.5 (Xray, Penetrates Everything.) Custom (go1.20 linux/amd64)
        A unified platform for anti-censorship.";

    let v = version_field(text).unwrap();

    assert_eq!("1.7.5", v);
}

#[test]
fn version_output_gets_v_prefix() {
    let text = "Xray 1.7.5 (Xray, Penetrates Everything.) Custom (go1.20 linux/amd64)";
    let v = parse_version_output(text).unwrap();
    assert_eq!(v.as_str(), "v1.7.5");
}

#[test]
fn version_output_field_at_end_of_text() {
    assert_eq!(parse_version_output("Xray 1.8.0").unwrap().as_str(), "v1.8.0");
}

#[test]
fn version_output_without_second_field_is_malformed() {
    assert_eq!(parse_version_output("Xray").unwrap_err(), VersionError::MalformedOutput);
    assert_eq!(parse_version_output("").unwrap_err(), VersionError::MalformedOutput);
}

#[test]
fn version_output_with_empty_second_field_gives_bare_v() {
    assert_eq!(parse_version_output("Xray  1.7.5").unwrap().as_str(), "v");
    assert_eq!(parse_version_output("Xray ").unwrap().as_str(), "v");
    assert_eq!(version_field("Xray  1.7.5").unwrap(), "");
}

#[test]
fn release_url_yields_tag() {
    let url = "https://github.com/XTLS/Xray-core/releases/tag/v1.7.5";
    let v = version_from_release_url(url).unwrap();
    assert_eq!(v.as_str(), "v1.7.5");
}

#[test]
fn release_url_of_other_shape_is_refused() {
    let not_redirected = "https://github.com/XTLS/Xray-core/releases/latest";
    assert_eq!(version_from_release_url(not_redirected).unwrap_err(), VersionError::UnexpectedUrl);
    let trailing = "https://github.com/XTLS/Xray-core/releases/tag/v1.7.5/";
    assert_eq!(version_from_release_url(trailing).unwrap_err(), VersionError::UnexpectedUrl);
    assert_eq!(version_from_release_url("v1.7.5").unwrap_err(), VersionError::UnexpectedUrl);
    assert_eq!(version_from_release_url("").unwrap_err(), VersionError::UnexpectedUrl);
    assert_eq!(version_from_release_url("tag/v1").unwrap_err(), VersionError::UnexpectedUrl);
    assert_eq!(version_from_release_url("/tag/v1").unwrap().as_str(), "v1");
}

#[test]
fn decide_upgrades_only_on_difference() {
    let a = Version::from_str("v1.7.4");
    let b = Version::from_str("v1.7.5");
    assert_eq!(decide(&a, &b), Decision::Upgrade);
    assert_eq!(decide(&b, &a), Decision::Upgrade);
    assert_eq!(decide(&a, &a), Decision::NoAction);
    assert_eq!(decide(&Version::from_str(""), &Version::from_str("")), Decision::NoAction);
}

#[test]
fn reconcile_cases() {
    let a = || Some(Version::from_str("v1.7.4"));
    let b = || Some(Version::from_str("v1.7.5"));
    assert_eq!(reconcile(a(), b()), Plan::Upgrade(Version::from_str("v1.7.5")));
    assert_eq!(reconcile(b(), b()), Plan::KeepCurrent);
    assert_eq!(reconcile(None, b()), Plan::Upgrade(Version::from_str("v1.7.5")));
    assert_eq!(reconcile(a(), None), Plan::KeepCurrent);
    assert_eq!(reconcile(None, None), Plan::Fatal);
}

#[test]
fn end_to_end_upgrade_fetches_then_spawns() {
    let plan = reconcile(
        Some(Version::from_str("v1.7.4")),
        Some(Version::from_str("v1.7.5")),
    );
    assert_eq!(
        startup_steps(&plan),
        vec![Step::Fetch, Step::Extract, Step::Install, Step::Spawn]
    );
}

#[test]
fn end_to_end_current_spawns_without_fetch() {
    let plan = reconcile(
        Some(Version::from_str("v1.7.5")),
        Some(Version::from_str("v1.7.5")),
    );
    let steps = startup_steps(&plan);
    assert_eq!(steps, vec![Step::Spawn]);
    assert!(!steps.contains(&Step::Fetch));
    assert!(startup_steps(&Plan::Fatal).is_empty());
}

#[test]
fn failed_upgrade_falls_back_to_installed_binary() {
    assert_eq!(after_failed_upgrade(&Some(Version::from_str("v1.7.4"))), Plan::KeepCurrent);
    assert_eq!(after_failed_upgrade(&None), Plan::Fatal);
}

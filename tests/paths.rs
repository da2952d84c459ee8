use replit_xray::paths::{
    download_url, identity_get_url, identity_set_url, join_url, keep_alive_url,
    latest_release_url,
};

#[test]
fn join_adds_one_separator() {
    assert_eq!(join_url("https://h/releases", "latest"), "https://h/releases/latest");
    assert_eq!(join_url("https://h/releases/", "latest"), "https://h/releases/latest");
    assert_eq!(join_url("https://h/releases", "/latest"), "https://h/releases/latest");
    assert_eq!(join_url("https://h/releases/", "/latest"), "https://h/releases/latest");
    assert_eq!(join_url("", ""), "/");
}

#[test]
fn release_urls() {
    let base = "https://github.com/XTLS/Xray-core/releases";
    assert_eq!(latest_release_url(base), "https://github.com/XTLS/Xray-core/releases/latest");
    assert_eq!(
        download_url(base, "v1.7.5", "linux"),
        "https://github.com/XTLS/Xray-core/releases/download/v1.7.5/Xray-linux-64.zip"
    );
}

#[test]
fn keep_alive_and_store_urls() {
    assert_eq!(keep_alive_url("app", "me", "U1"), "app.me.repl.co/U1");
    assert_eq!(identity_get_url("https://db"), "https://db/uuid");
    assert_eq!(identity_set_url("https://db", "U1"), "https://db/uuid=U1");
}

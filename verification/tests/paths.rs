use sc_helper::paths::{
    join, linux, macos, names_inside, parent, resolve_mihomo_path, socket_path, windows, Platform,
};
use std::path::Path;

#[test]
fn parent_is_as_in_std() {
    for p in [
        "", "/", "//", "a", "/a", "a/", "/a/", "a/b", "/a/b", "a//b", "/a//b//", ".", "./a", "/.",
        "a/.", "a/./b", "././a", "..", "a/..", "/./a", "//a", "a/b/./", "a.", "a/b.", ".a", "/.a",
    ] {
        let want = Path::new(p).parent().map(|d| d.to_str().unwrap().to_string());
        assert_eq!(parent(p), want, "{:?}", p);
    }
}

#[test]
fn join_is_as_in_std() {
    for dir in ["", "/", "a", "a/", "/a/b"] {
        for path in ["", "c", "/c", "c/d", "."] {
            let want = Path::new(dir).join(path).to_str().unwrap().to_string();
            assert_eq!(join(dir, path), want, "{:?} {:?}", dir, path);
        }
    }
}

#[test]
fn names_that_stay_inside() {
    for name in [
        "", ".", "config.yaml", "sub/config.yaml", "..a", "a..", "...", "a/..b/c", "a//b", "./a",
        "a/..", "a/../b.yaml", "a/b/../../c", "a//../b", "./a/./../b", "../x/b.yaml",
        "../../tmp/x/b.yaml", "a/../../x",
    ] {
        assert!(names_inside("/tmp/x", name), "{:?}", name);
    }
}

#[test]
fn names_that_lead_out() {
    for name in [
        "/", "/etc/other.yaml", "/tmp/x/b.yaml", "..", "../a", "../../etc/other.yaml",
        "a/../../b", "./..", "../../../../tmp/y", "../xy/b.yaml",
    ] {
        assert!(!names_inside("/tmp/x", name), "{:?}", name);
    }
}

#[test]
fn names_inside_goes_by_the_directory() {
    for dir in ["/tmp/x/", "/tmp/./x", "/tmp//x//", "/tmp/y/../x", "/../tmp/x", "x", "./x/", "../x"] {
        assert!(names_inside(dir, "b.yaml"), "{:?}", dir);
        assert!(names_inside(dir, "../x/b.yaml"), "{:?}", dir);
        assert!(!names_inside(dir, "../b.yaml"), "{:?}", dir);
    }
    assert!(names_inside("/", "../b.yaml"));
    assert!(names_inside("", "a/../b.yaml"));
    for dir in ["", ".", "..", "../.."] {
        assert!(names_inside(dir, "b.yaml"), "{:?}", dir);
        assert!(!names_inside(dir, "../b.yaml"), "{:?}", dir);
    }
}

#[test]
fn mihomo_stands_next_to_the_helper() {
    let moved = Some("/opt/debug/my-helper".to_string());
    assert_eq!(resolve_mihomo_path(Platform::MacOs, moved.clone()), "/opt/debug/sc-mihomo");
    assert_eq!(resolve_mihomo_path(Platform::Linux, moved.clone()), "/opt/debug/sc-mihomo");
    assert_eq!(
        resolve_mihomo_path(Platform::Windows, moved),
        r"C:\Program Files\sc_helper\sc-mihomo.exe"
    );
}

#[test]
fn mihomo_path_without_an_executable() {
    assert_eq!(
        resolve_mihomo_path(Platform::MacOs, None),
        "/Library/PrivilegedHelperTools/com.scloud.helper/sc-mihomo"
    );
    assert_eq!(resolve_mihomo_path(Platform::Linux, None), "/usr/lib/sc-helper/sc-mihomo");
    let root = Some("/".to_string());
    assert_eq!(
        resolve_mihomo_path(Platform::MacOs, root.clone()),
        "/Library/PrivilegedHelperTools/com.scloud.helper/sc-mihomo"
    );
    assert_eq!(resolve_mihomo_path(Platform::Linux, root), "/usr/lib/sc-helper/sc-mihomo");
}

#[test]
fn socket_is_at_its_place_unless_overridden() {
    assert_eq!(socket_path(Platform::MacOs, None), "/var/run/sc-helper.sock");
    assert_eq!(socket_path(Platform::Linux, None), "/run/sc-helper.sock");
    assert_eq!(socket_path(Platform::Windows, None), r"\\.\pipe\sc-helper");
    assert_eq!(
        socket_path(Platform::MacOs, Some("/tmp/sc-helper-test-1.sock".to_string())),
        "/tmp/sc-helper-test-1.sock"
    );
}

#[test]
fn agreed_paths() {
    assert_eq!(macos::LAUNCHD_LABEL, "com.scloud.helper");
    assert_eq!(macos::LAUNCHD_PLIST, "/Library/LaunchDaemons/com.scloud.helper.plist");
    assert_eq!(
        macos::HELPER_INSTALL_DIR,
        "/Library/PrivilegedHelperTools/com.scloud.helper"
    );
    assert_eq!(
        macos::HELPER_BINARY,
        "/Library/PrivilegedHelperTools/com.scloud.helper/sc-helper"
    );
    assert_eq!(macos::STDOUT_LOG, "/Library/Logs/sc-helper.log");
    assert_eq!(macos::STDERR_LOG, "/Library/Logs/sc-helper.err.log");
    assert_eq!(linux::SERVICE_NAME, "sc-helper");
    assert_eq!(linux::SYSTEMD_UNIT_PATH, "/etc/systemd/system/sc-helper.service");
    assert_eq!(linux::HELPER_BINARY, "/usr/lib/sc-helper/sc-helper");
    assert_eq!(linux::STDOUT_LOG, "/var/log/sc-helper.log");
    assert_eq!(linux::STDERR_LOG, "/var/log/sc-helper.err.log");
    assert_eq!(windows::SERVICE_NAME, "sc_helper");
    assert_eq!(windows::SERVICE_DISPLAY, "SCloud VPN Helper");
    assert_eq!(windows::HELPER_INSTALL_DIR, r"C:\Program Files\sc_helper");
    assert_eq!(windows::HELPER_BINARY, r"C:\Program Files\sc_helper\sc-helper.exe");
}

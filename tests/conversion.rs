use wslpath_rs::{
    join_components, normalize, windows_components_to_wsl, windows_to_wsl,
    wsl_components_to_windows, wsl_to_windows, Component, Error, WindowsComponent, WindowsPrefix,
};

fn normal(s: &str) -> Component {
    Component::Normal(s.to_string())
}

fn win_normal(s: &str) -> WindowsComponent {
    WindowsComponent::Normal(s.to_string())
}

#[test]
fn drive_path_to_guest() {
    assert_eq!(windows_to_wsl("C:\\Windows").unwrap(), "/mnt/c/Windows");
    assert_eq!(windows_to_wsl("D:\\foo\\..\\bar\\.\\baz.txt").unwrap(), "/mnt/d/bar/baz.txt");
    assert_eq!(
        windows_to_wsl("C:\\Program Files (x86)\\Foo\\bar.txt").unwrap(),
        "/mnt/c/Program Files (x86)/Foo/bar.txt"
    );
}

#[test]
fn verbatim_drive_path_to_guest() {
    assert_eq!(windows_to_wsl("\\\\?\\C:\\Windows").unwrap(), "/mnt/c/Windows");
    assert_eq!(windows_to_wsl("\\\\?\\D:\\foo\\..\\bar\\.\\baz.txt").unwrap(), "/mnt/d/bar/baz.txt");
    assert_eq!(
        windows_to_wsl("\\\\?\\C:\\Program Files (x86)\\Foo\\bar.txt").unwrap(),
        "/mnt/c/Program Files (x86)/Foo/bar.txt"
    );
}

#[test]
fn verbatim_prefix_is_transparent() {
    assert_eq!(windows_to_wsl("\\\\?\\C:\\Windows"), windows_to_wsl("C:\\Windows"));
}

#[test]
fn relative_windows_paths_fail() {
    assert_eq!(windows_to_wsl("Program Files (x86)\\Foo\\bar.txt").unwrap_err(), Error::RelativePath);
    assert_eq!(windows_to_wsl("Program Files\\Foo").unwrap_err(), Error::RelativePath);
    assert_eq!(windows_to_wsl("..\\foo\\bar.txt").unwrap_err(), Error::RelativePath);
    assert_eq!(windows_to_wsl("\\Windows").unwrap_err(), Error::RelativePath);
    assert_eq!(windows_to_wsl("C:Windows").unwrap_err(), Error::RelativePath);
    assert_eq!(windows_to_wsl("").unwrap_err(), Error::RelativePath);
}

#[test]
fn loopback_unc_maps_to_guest_root() {
    assert_eq!(
        windows_to_wsl("\\\\?\\UNC\\wsl.localhost\\distro\\home\\user\\file").unwrap(),
        "/home/user/file"
    );
}

#[test]
fn loopback_host_ignores_ascii_case() {
    assert_eq!(
        windows_to_wsl("\\\\?\\UNC\\WSL.LocalHost\\distro\\home\\user\\file").unwrap(),
        "/home/user/file"
    );
}

#[test]
fn other_unc_hosts_fail() {
    assert_eq!(
        windows_to_wsl("\\\\?\\UNC\\other.domain\\distro\\home\\user\\file").unwrap_err(),
        Error::InvalidPrefix
    );
    assert_eq!(windows_to_wsl("\\\\server\\share\\file").unwrap_err(), Error::InvalidPrefix);
}

#[test]
fn guest_path_to_windows() {
    assert_eq!(wsl_to_windows("/mnt/c/Windows").unwrap(), "C:\\Windows");
    assert_eq!(wsl_to_windows("/mnt/d/foo/../bar/./baz.txt").unwrap(), "D:\\bar\\baz.txt");
    assert_eq!(
        wsl_to_windows("/mnt/c/Program Files (x86)/Foo/bar.txt").unwrap(),
        "C:\\Program Files (x86)\\Foo\\bar.txt"
    );
}

#[test]
fn guest_drive_root_to_windows() {
    assert_eq!(wsl_to_windows("/mnt/c").unwrap(), "C:\\");
    assert_eq!(wsl_to_windows("/mnt/c/").unwrap(), "C:\\");
}

#[test]
fn unsupported_guest_roots_fail() {
    assert_eq!(wsl_to_windows("/etc/fstab").unwrap_err(), Error::InvalidPrefix);
    assert_eq!(wsl_to_windows("/mnt/my_custom_mount/foo/bar.txt").unwrap_err(), Error::InvalidPrefix);
    assert_eq!(wsl_to_windows("/mnt").unwrap_err(), Error::InvalidPrefix);
    assert_eq!(wsl_to_windows("/").unwrap_err(), Error::InvalidPrefix);
}

#[test]
fn relative_guest_paths_fail() {
    assert_eq!(wsl_to_windows("Program Files (x86)/Foo/bar.txt").unwrap_err(), Error::RelativePath);
    assert_eq!(wsl_to_windows("../foo/bar.txt").unwrap_err(), Error::RelativePath);
    assert_eq!(wsl_to_windows("Foo/bar.txt").unwrap_err(), Error::RelativePath);
    assert_eq!(wsl_to_windows("").unwrap_err(), Error::RelativePath);
}

#[test]
fn normalization_collapses_dot_segments() {
    assert_eq!(windows_to_wsl("C:\\foo\\..\\bar\\.\\baz.txt").unwrap(), "/mnt/c/bar/baz.txt");
}

#[test]
fn drive_letter_case_per_direction() {
    assert_eq!(windows_to_wsl("C:\\Windows").unwrap(), "/mnt/c/Windows");
    assert_eq!(windows_to_wsl("c:\\Windows").unwrap(), "/mnt/c/Windows");
    assert_eq!(wsl_to_windows("/mnt/c/Windows").unwrap(), "C:\\Windows");
}

#[test]
fn segment_case_is_kept() {
    assert_eq!(windows_to_wsl("E:\\MiXeD\\CaSe").unwrap(), "/mnt/e/MiXeD/CaSe");
    assert_eq!(wsl_to_windows("/mnt/e/MiXeD/CaSe").unwrap(), "E:\\MiXeD\\CaSe");
}

#[test]
fn spaces_and_parentheses_pass_through() {
    assert_eq!(
        windows_to_wsl("C:\\Program Files (x86)").unwrap(),
        "/mnt/c/Program Files (x86)"
    );
    assert_eq!(
        wsl_to_windows("/mnt/c/Program Files (x86)").unwrap(),
        "C:\\Program Files (x86)"
    );
}

#[test]
fn round_trip_through_windows() {
    let guest = "/mnt/d/foo/../bar/./baz.txt";
    let windows = wsl_to_windows(guest).unwrap();
    assert_eq!(windows_to_wsl(&windows).unwrap(), "/mnt/d/bar/baz.txt");
}

#[test]
fn unmatched_parent_is_kept() {
    let parts = vec![Component::ParentDir, normal("a"), Component::CurDir, Component::ParentDir, Component::ParentDir];
    let joined = join_components(&normalize(&parts), "/");
    assert_eq!(joined, "../..");
}

#[test]
fn normalize_is_idempotent_on_example() {
    let parts = vec![normal("a"), Component::ParentDir, Component::ParentDir, normal("b"), Component::CurDir];
    let once = normalize(&parts);
    let twice = normalize(&once);
    assert_eq!(join_components(&once, "/"), "../b");
    assert_eq!(join_components(&twice, "/"), "../b");
}

#[test]
fn join_uses_separator() {
    let parts = vec![normal("a"), Component::CurDir, Component::ParentDir, normal("b c")];
    assert_eq!(join_components(&parts, "\\"), "a\\.\\..\\b c");
    assert_eq!(join_components(&Vec::new(), "/"), "");
}

#[test]
fn drive_components_to_guest() {
    let parts = vec![
        WindowsComponent::Prefix(WindowsPrefix::Disk('Q')),
        WindowsComponent::RootDir,
        win_normal("x"),
        WindowsComponent::CurDir,
        win_normal("y"),
    ];
    assert_eq!(windows_components_to_wsl(&parts).unwrap(), "/mnt/q/x/y");
}

#[test]
fn escaping_parent_stays_below_drive() {
    let parts = vec![
        WindowsComponent::Prefix(WindowsPrefix::VerbatimDisk('c')),
        WindowsComponent::RootDir,
        WindowsComponent::ParentDir,
    ];
    assert_eq!(windows_components_to_wsl(&parts).unwrap(), "/mnt/c/..");
}

#[test]
fn unc_components_to_guest() {
    let loopback = vec![
        WindowsComponent::Prefix(WindowsPrefix::VerbatimUnc("wsl.localhost".to_string(), "d".to_string())),
        WindowsComponent::RootDir,
        win_normal("etc"),
    ];
    assert_eq!(windows_components_to_wsl(&loopback).unwrap(), "/etc");
    let other = vec![
        WindowsComponent::Prefix(WindowsPrefix::VerbatimUnc("host".to_string(), "d".to_string())),
        WindowsComponent::RootDir,
    ];
    assert_eq!(windows_components_to_wsl(&other).unwrap_err(), Error::InvalidPrefix);
    let device = vec![
        WindowsComponent::Prefix(WindowsPrefix::DeviceNs("COM1".to_string())),
        WindowsComponent::RootDir,
    ];
    assert_eq!(windows_components_to_wsl(&device).unwrap_err(), Error::InvalidPrefix);
    let verbatim = vec![
        WindowsComponent::Prefix(WindowsPrefix::Verbatim("pictures".to_string())),
        WindowsComponent::RootDir,
    ];
    assert_eq!(windows_components_to_wsl(&verbatim).unwrap_err(), Error::InvalidPrefix);
    let plain_unc = vec![
        WindowsComponent::Prefix(WindowsPrefix::Unc("wsl.localhost".to_string(), "d".to_string())),
        WindowsComponent::RootDir,
    ];
    assert_eq!(windows_components_to_wsl(&plain_unc).unwrap_err(), Error::InvalidPrefix);
    let bare = vec![WindowsComponent::Prefix(WindowsPrefix::Disk('C'))];
    assert_eq!(windows_components_to_wsl(&bare).unwrap_err(), Error::RelativePath);
}

#[test]
fn guest_components_to_windows() {
    let parts = vec![Component::RootDir, normal("mnt"), normal("z"), normal("a"), Component::ParentDir, Component::ParentDir, normal("b")];
    assert_eq!(wsl_components_to_windows(&parts).unwrap(), "Z:\\..\\b");
    let long_drive = vec![Component::RootDir, normal("mnt"), normal("zz")];
    assert_eq!(wsl_components_to_windows(&long_drive).unwrap_err(), Error::InvalidPrefix);
    let relative = vec![normal("mnt"), normal("z")];
    assert_eq!(wsl_components_to_windows(&relative).unwrap_err(), Error::RelativePath);
}

#[test]
fn parent_of_drive_root_is_kept() {
    assert_eq!(windows_to_wsl("C:\\..").unwrap(), "/mnt/c/..");
    assert_eq!(windows_to_wsl("D:\\..\\x").unwrap(), "/mnt/d/../x");
    assert_eq!(windows_to_wsl("\\\\?\\E:\\a\\..\\..").unwrap(), "/mnt/e/..");
    assert_eq!(windows_to_wsl("C:\\").unwrap(), "/mnt/c");
}

#[test]
fn parent_of_guest_drive_root_is_kept() {
    assert_eq!(wsl_to_windows("/mnt/c/..").unwrap(), "C:\\..");
    assert_eq!(wsl_to_windows("/mnt/z/a/../../b").unwrap(), "Z:\\..\\b");
}

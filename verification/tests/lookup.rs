use lib::lookup::{
    command_candidates, command_exists, command_path, detect_python_bin, detect_system_context,
    os_version_source, resolve_zsh, zsh_candidate, VersionSource,
};

#[test]
fn candidates_follow_path_entries() {
    assert_eq!(
        command_candidates("/usr/bin::/opt/x", "uv"),
        vec!["/usr/bin/uv", "/uv", "/opt/x/uv"]
    );
    assert_eq!(command_candidates("", "uv"), vec!["/uv"]);
}

#[test]
fn first_existing_candidate_wins() {
    let c = command_candidates("/a:/b:/c", "pip");
    assert_eq!(command_path(&c, &vec![false, true, true]), Some("/b/pip".to_string()));
    assert_eq!(command_path(&c, &vec![false, false, false]), None);
}

#[test]
fn paths_with_slash_are_checked_directly() {
    assert!(command_exists("/usr/bin/sw_vers", true, false));
    assert!(!command_exists("/usr/bin/sw_vers", false, true));
    assert!(command_exists("pipx", false, true));
    assert!(!command_exists("pipx", true, false));
}

#[test]
fn python3_is_preferred() {
    assert_eq!(detect_python_bin(true, true), Some("python3".to_string()));
    assert_eq!(detect_python_bin(false, true), Some("python".to_string()));
    assert_eq!(detect_python_bin(false, false), None);
}

#[test]
fn zsh_choice() {
    assert_eq!(zsh_candidate(None), "/bin/zsh");
    assert_eq!(zsh_candidate(Some("/bin/bash")), "/bin/bash");
    assert_eq!(resolve_zsh("/usr/local/bin/zsh", true, true), "/usr/local/bin/zsh");
    assert_eq!(resolve_zsh("/bin/bash", true, true), "/bin/zsh");
    assert_eq!(resolve_zsh("/usr/local/bin/zsh", false, false), "zsh");
}

#[test]
fn system_descriptions() {
    assert_eq!(os_version_source("Darwin"), VersionSource::ProductVersion);
    assert_eq!(os_version_source("Linux"), VersionSource::OsRelease);
    assert_eq!(os_version_source("FreeBSD"), VersionSource::Unknown);
    assert_eq!(
        detect_system_context("Darwin", "arm64", Some("14.5")),
        ("macOS".to_string(), "14.5".to_string(), "arm64".to_string())
    );
    assert_eq!(
        detect_system_context("Linux", "x86_64", None),
        ("Linux".to_string(), "unknown".to_string(), "x86_64".to_string())
    );
    assert_eq!(
        detect_system_context("FreeBSD", "amd64", Some("14")),
        ("FreeBSD".to_string(), "unknown".to_string(), "amd64".to_string())
    );
}

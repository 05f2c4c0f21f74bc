use lib::outputs::{
    brew_listing, brew_python_formulas, count_nonblank_lines, linux_pretty_name,
    pipx_lists_package, python_console_scripts, python_path_entries, python_runtime_details,
    shell_type_lines, strip_version_prefix, uv_lists_package, uv_tool_counts,
};

#[test]
fn runtime_details_are_the_lines() {
    assert_eq!(
        python_runtime_details(Some("Python        : 3.12.1\nArch          : arm64")),
        vec!["Python        : 3.12.1", "Arch          : arm64"]
    );
    assert!(python_runtime_details(None).is_empty());
}

#[test]
fn console_scripts_skip_blank_lines() {
    assert_eq!(python_console_scripts(Some("black\n \nblackd\n")), vec!["black", "blackd"]);
    assert!(python_console_scripts(None).is_empty());
}

#[test]
fn type_lines_are_trimmed() {
    assert_eq!(
        shell_type_lines("  python3 is /usr/bin/python3 \n\n\tpython3 is /bin/python3\n"),
        vec!["python3 is /usr/bin/python3", "python3 is /bin/python3"]
    );
    assert!(shell_type_lines("").is_empty());
}

#[test]
fn pipx_match_ignores_case() {
    let list = "black 24.1.0\nPoetry 1.8.2\n";
    assert!(pipx_lists_package(list, "poetry"));
    assert!(pipx_lists_package(list, "BLACK"));
    assert!(!pipx_lists_package(list, "ruff"));
    assert!(!pipx_lists_package("", "ruff"));
}

#[test]
fn uv_match_skips_executable_lines() {
    let list = "ruff v0.4.0\n- ruff\n  - black\n";
    assert!(uv_lists_package(list, "Ruff"));
    assert!(!uv_lists_package(list, "black"));
    assert_eq!(uv_tool_counts(list), (1, 2));
    assert_eq!(uv_tool_counts("\n\n"), (0, 0));
}

#[test]
fn counts_non_blank_lines() {
    assert_eq!(count_nonblank_lines("3.11.9\n\n  \n3.12.1\n"), 2);
    assert_eq!(count_nonblank_lines(""), 0);
}

#[test]
fn brew_python_formulas_and_listing() {
    let list = "git 2.45\npython@3.12 3.12.3\npython 3.11\npythonista 1\n";
    let names = brew_python_formulas(list);
    assert_eq!(names, vec!["python@3.12", "python"]);
    assert_eq!(brew_listing(&names), "python@3.12, python");
    let many: Vec<String> = (6..13).map(|i| format!("python@3.{i}")).collect();
    assert_eq!(
        brew_listing(&many),
        "python@3.6, python@3.7, python@3.8, python@3.9, python@3.10, ..."
    );
    let five: Vec<String> = (6..11).map(|i| format!("python@3.{i}")).collect();
    assert_eq!(brew_listing(&five), "python@3.6, python@3.7, python@3.8, python@3.9, python@3.10");
}

#[test]
fn path_entries_about_python() {
    assert_eq!(
        python_path_entries("/usr/bin:/Users/me/.PyEnv/shims:/opt/conda/bin:/tmp/venv/bin:/bin"),
        vec!["/Users/me/.PyEnv/shims", "/opt/conda/bin", "/tmp/venv/bin"]
    );
    assert!(python_path_entries("").is_empty());
}

#[test]
fn os_release_pretty_name() {
    let t = "NAME=\"Ubuntu\"\nPRETTY_NAME=\"Ubuntu 22.04.4 LTS\"\nPRETTY_NAME=\"other\"\n";
    assert_eq!(linux_pretty_name(t), Some("Ubuntu 22.04.4 LTS".to_string()));
    assert_eq!(linux_pretty_name("NAME=x\n"), None);
}

#[test]
fn version_prefixes() {
    assert_eq!(strip_version_prefix("pyenv 2.4.0", "pyenv "), "2.4.0");
    assert_eq!(strip_version_prefix("2.4.0", "pyenv "), "2.4.0");
    assert_eq!(strip_version_prefix("conda 24.1.2", "conda "), "24.1.2");
}

#[test]
fn runtime_details_rejoin_into_the_output() {
    let out = "Python        : 3.12.1\n\nArch          : arm64";
    let lines = python_runtime_details(Some(out));
    assert_eq!(lines.join("\n"), out);
    assert!(lines.iter().all(|l| !l.contains('\n')));
    let scripts = python_console_scripts(Some("a\n\n b \n"));
    assert!(scripts.iter().all(|l| !l.trim().is_empty() && !l.contains('\n')));
}

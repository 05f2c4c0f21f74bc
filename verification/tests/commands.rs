use lib::commands::{
    brew_list_command, installed_packages_command, package_commands, pip_commands, pipx_commands,
    product_version_command, pyenv_commands, python_commands, type_command, uname_commands,
    uv_commands, version_command, CommandLine, Tool,
};
use lib::queries::{CONSOLE_SCRIPTS_SCRIPT, RUNTIME_DETAILS_SCRIPT};

fn line(c: &CommandLine) -> Vec<String> {
    let mut v = vec![c.program.clone()];
    v.extend(c.args.iter().cloned());
    v
}

#[test]
fn package_questions_go_through_the_active_interpreter() {
    let c = package_commands("python3.12", "black", true, false);
    assert_eq!(line(&c.pip_show), vec!["python3.12", "-m", "pip", "show", "black"]);
    assert_eq!(line(&c.console_scripts), vec!["python3.12", "-c", CONSOLE_SCRIPTS_SCRIPT, "black"]);
    assert_eq!(line(c.pipx_list.as_ref().unwrap()), vec!["pipx", "list", "--short"]);
    assert!(c.uv_list.is_none());
    let c = package_commands("python", "x", false, true);
    assert!(c.pipx_list.is_none());
    assert_eq!(line(c.uv_list.as_ref().unwrap()), vec!["uv", "tool", "list"]);
}

#[test]
fn interpreter_and_pip_questions() {
    let c = python_commands("python3");
    assert_eq!(line(&c.version), vec!["python3", "-V"]);
    assert_eq!(line(&c.runtime), vec!["python3", "-c", RUNTIME_DETAILS_SCRIPT]);
    assert_eq!(line(&c.pip_check), vec!["python3", "-m", "pip", "-V"]);
    assert!(pip_commands("python3", false).is_none());
    let p = pip_commands("python3", true).unwrap();
    assert_eq!(line(&p.config), vec!["python3", "-m", "pip", "config", "list"]);
    assert!(installed_packages_command("python3", false).is_none());
    assert_eq!(
        line(&installed_packages_command("python3", true).unwrap()),
        vec!["python3", "-m", "pip", "list", "--format=columns"]
    );
}

#[test]
fn tools_are_asked_only_when_installed() {
    assert!(pyenv_commands(false).is_none());
    assert_eq!(line(&pyenv_commands(true).unwrap().versions), vec!["pyenv", "versions", "--bare"]);
    assert!(pipx_commands(false).is_none());
    assert_eq!(
        line(&pipx_commands(true).unwrap().bin_dir),
        vec!["pipx", "environment", "--value", "PIPX_BIN_DIR"]
    );
    assert!(uv_commands(false).is_none());
    assert_eq!(line(&uv_commands(true).unwrap().tool_dir), vec!["uv", "tool", "dir"]);
    assert!(version_command(Tool::Poetry, false).is_none());
    assert_eq!(line(&version_command(Tool::Conda, true).unwrap()), vec!["conda", "--version"]);
    assert!(brew_list_command(false).is_none());
    assert_eq!(line(&brew_list_command(true).unwrap()), vec!["brew", "list", "--versions"]);
    assert_eq!(Tool::Pipenv.program(), "pipenv");
}

#[test]
fn system_questions() {
    let u = uname_commands("-s");
    assert_eq!(line(&u[0]), vec!["/usr/bin/uname", "-s"]);
    assert_eq!(line(&u[1]), vec!["uname", "-s"]);
    assert_eq!(line(&product_version_command()), vec!["/usr/bin/sw_vers", "-productVersion"]);
    assert_eq!(
        line(&type_command("/bin/zsh", "pip")),
        vec!["/bin/zsh", "-c", "type -a pip 2>/dev/null || true"]
    );
}

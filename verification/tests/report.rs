use lib::queries::{probed_commands, type_query, watched_env_vars};
use lib::report::{
    run_full_mode, run_package_mode, show_line, CondaFacts, FullFacts, LineKind, PackageFacts,
    PipFacts, PipxFacts, PyenvFacts, PythonFacts, UvFacts,
};
use lib::styles::{Styles, Theme};

const RULE: &str = "──────────────────────────────────────────────";

fn section(title: &str) -> Vec<String> {
    vec![String::new(), title.to_string(), RULE.to_string()]
}

#[test]
fn missing_interpreter_is_an_error_with_status_1() {
    match run_package_mode(&Styles::plain(), "requests", None) {
        Err((m, c)) => {
            assert_eq!(m, "Aucun interpreteur Python detecte (python3/python).");
            assert_eq!(c, 1);
        }
        Ok(_) => panic!("expected an error"),
    }
}

#[test]
fn pip_show_fields_are_padded() {
    let s = Styles::themed(Theme::Dark);
    assert_eq!(
        show_line(&s, LineKind::PipField, "Name: requests"),
        "  • \x1b[38;5;81mName        \x1b[38;5;245m: \x1b[38;5;255mrequests\x1b[0m"
    );
    let p = Styles::plain();
    assert_eq!(
        show_line(&p, LineKind::PipField, "Home-page: https://x.org"),
        "  • Home-page   : https://x.org"
    );
    assert_eq!(show_line(&p, LineKind::PipField, "no colon"), "  • no colon");
}

#[test]
fn package_report_layout() {
    let facts = PackageFacts {
        python: "python3".to_string(),
        executable: Some("/usr/bin/python3".to_string()),
        pip_show: Some("Name: Black\nVersion: 24.1.0".to_string()),
        console_scripts: Some("black\nblackd\n".to_string()),
        pipx_list: Some("black 24.1.0\n".to_string()),
        uv_list: None,
    };
    let lines = run_package_mode(&Styles::plain(), "black", Some(&facts)).unwrap();
    let mut want: Vec<String> = vec![
        String::new(),
        "🐍 PYTHON – INFOS PAQUET : black".to_string(),
        "══════════════════════════════════════════════".to_string(),
    ];
    want.extend(section("1) CONTEXTE"));
    want.push("  • Interpreteur : python3".to_string());
    want.push("  • Executable   : /usr/bin/python3".to_string());
    want.extend(section("2) PIP SHOW"));
    want.push("  • Name        : Black".to_string());
    want.push("  • Version     : 24.1.0".to_string());
    want.extend(section("3) BINAIRES EXPOSES (console_scripts)"));
    want.push("  • black".to_string());
    want.push("  • blackd".to_string());
    want.extend(section("4) ORIGINE POSSIBLE (pipx/uv)"));
    want.push("  • pipx    : installe".to_string());
    assert_eq!(lines, want);
}

#[test]
fn package_report_when_nothing_is_known() {
    let facts = PackageFacts {
        python: "python".to_string(),
        executable: None,
        pip_show: None,
        console_scripts: None,
        pipx_list: Some(String::new()),
        uv_list: Some("ruff v0.4\n- ruff\n".to_string()),
    };
    let lines = run_package_mode(&Styles::plain(), "ruff2", Some(&facts)).unwrap();
    assert_eq!(lines[7], "  • Executable   : python");
    assert_eq!(lines[11], "  • Paquet introuvable via pip: ruff2");
    assert_eq!(lines[15], "  • Aucun console_script detecte");
    assert_eq!(lines[19], "  • non detectee (installation pip classique probable)");
    assert_eq!(lines.len(), 20);
}

#[test]
fn package_report_found_by_uv() {
    let facts = PackageFacts {
        python: "python3".to_string(),
        executable: None,
        pip_show: Some(String::new()),
        console_scripts: Some(String::new()),
        pipx_list: None,
        uv_list: Some("Ruff v0.4\n- ruff\n".to_string()),
    };
    let lines = run_package_mode(&Styles::plain(), "ruff", Some(&facts)).unwrap();
    assert_eq!(lines.last().unwrap(), "  • uv tool : installe");
}

fn full_facts() -> FullFacts {
    FullFacts {
        user: Some("ana".to_string()),
        os_name: "Linux".to_string(),
        os_version: "Ubuntu 22.04".to_string(),
        os_arch: "x86_64".to_string(),
        shell: None,
        type_outputs: vec![
            "python3 is /usr/bin/python3\n".to_string(),
            String::new(),
            "\n".to_string(),
            String::new(),
        ],
        python: Some(PythonFacts {
            bin: "python3".to_string(),
            path: Some("/usr/bin/python3".to_string()),
            version: Some("Python 3.12.1".to_string()),
            runtime: Some("Arch          : x86_64".to_string()),
            pip: Some(PipFacts { version_line: Some("pip 24.0".to_string()), config: None }),
        }),
        env_values: vec![Some("/venv".to_string()), None, Some(String::new())],
        path: Some("/usr/bin:/home/ana/.pyenv/shims".to_string()),
        pyenv: Some(PyenvFacts {
            version: Some("pyenv 2.4.0".to_string()),
            root: Some("/home/ana/.pyenv".to_string()),
            active: Some("3.12.1".to_string()),
            versions: Some("3.11.9\n3.12.1\n".to_string()),
        }),
        conda: None,
        pipx: Some(PipxFacts {
            version: Some("1.5.0".to_string()),
            short_list: Some("black 24\n".to_string()),
            bin_dir: None,
            home: Some("/home/ana".to_string()),
        }),
        uv: Some(UvFacts {
            version: Some("uv 0.2.0".to_string()),
            tool_dir: None,
            tool_list: Some("ruff v0.4\n- ruff\n".to_string()),
        }),
        poetry: Some(Some("Poetry (version 1.8.2)".to_string())),
        pipenv: None,
        brew: Some(Some("python@3.12 3.12.3\n".to_string())),
        installed_packages: Some(Some("Package Version\npip 24.0".to_string())),
    }
}

#[test]
fn full_report_layout() {
    let lines = run_full_mode(&Styles::plain(), &full_facts());
    let mut want: Vec<String> = vec![
        String::new(),
        "🐍 PYTHON – ÉTAT DE L’ENVIRONNEMENT : ana".to_string(),
        "══════════════════════════════════════════════".to_string(),
    ];
    want.extend(section("1) CONTEXTE SYSTÈME"));
    want.push("  • OS : Linux Ubuntu 22.04 (x86_64)".to_string());
    want.push("  • Shell : unknown".to_string());
    want.extend(section("2) BINAIRES PYTHON / PIP DANS LE PATH"));
    want.push("  • python3 is /usr/bin/python3".to_string());
    want.push("  • python not found".to_string());
    want.push("  • pip3 not found".to_string());
    want.push("  • pip not found".to_string());
    want.extend(section("3) INTERPRÉTEUR PYTHON ACTIF"));
    want.push("  • python3 → /usr/bin/python3".to_string());
    want.push("  • Version : Python 3.12.1".to_string());
    want.push("  • Arch          : x86_64".to_string());
    want.extend(section("4) PIP (GESTIONNAIRE DE PACKAGES)"));
    want.push("  • pip 24.0".to_string());
    want.push("  • Configuration pip : aucune".to_string());
    want.extend(section("5) VARIABLES D’ENVIRONNEMENT"));
    want.push("  • VIRTUAL_ENV=/venv".to_string());
    for name in [
        "CONDA_PREFIX",
        "CONDA_DEFAULT_ENV",
        "PYENV_VERSION",
        "PYENV_ROOT",
        "PIP_REQUIRE_VIRTUALENV",
        "PIP_CONFIG_FILE",
        "PYTHONPATH",
    ] {
        want.push(format!("  • {name}=(vide)"));
    }
    want.push("  • PATH : /home/ana/.pyenv/shims".to_string());
    want.extend(section("6) GESTIONNAIRES / DISTRIBUTIONS"));
    want.push("  [A] Versions / environnements Python".to_string());
    want.push(
        "  • pyenv : 2.4.0 (actif=3.12.1, versions=2, root=/home/ana/.pyenv, binaires globaux=indirect via shims)"
            .to_string(),
    );
    want.push("  • conda : non installe".to_string());
    want.push(String::new());
    want.push("  [B] Outils CLI globaux (installent des executables)".to_string());
    want.push(
        "  • pipx : 1.5.0 (packages=1, bin=/home/ana/.local/bin, binaires globaux=oui)".to_string(),
    );
    want.push(
        "  • uv : 0.2.0 (tools=1, executables=1, dir=unknown, binaires globaux=oui via 'uv tool')"
            .to_string(),
    );
    want.push(String::new());
    want.push("  [C] Outils de projet (venv local, pas orientes global)".to_string());
    want.push("  • Poetry (version 1.8.2) (binaires globaux=plutot non, orienté projet)".to_string());
    want.push("  • pipenv : non installe".to_string());
    want.push(String::new());
    want.push("  [D] Distribution systeme".to_string());
    want.push(
        "  • Homebrew python : 1 formule(s) [python@3.12] (binaires globaux=oui)".to_string(),
    );
    want.extend(section("7) PACKAGES INSTALLÉS (pip list)"));
    want.push("  • Package Version".to_string());
    want.push("  • pip 24.0".to_string());
    assert_eq!(lines, want);
}

#[test]
fn full_report_without_python() {
    let mut f = full_facts();
    f.python = None;
    f.installed_packages = None;
    f.path = None;
    f.brew = Some(None);
    f.pipx = Some(PipxFacts { version: None, short_list: None, bin_dir: None, home: None });
    f.conda = Some(CondaFacts { version: Some("conda 24.1.2".to_string()), active_env: None });
    let lines = run_full_mode(&Styles::plain(), &f);
    assert!(lines.contains(&"  • Aucun binaire Python détecté".to_string()));
    assert!(lines.contains(&"  • pip indisponible".to_string()));
    assert!(lines.contains(&"  • PATH : aucun élément python détecté".to_string()));
    assert!(lines.contains(&"  • Homebrew python : aucune formule python detectee".to_string()));
    assert!(lines.contains(
        &"  • pipx : unknown (packages=0, bin=/Users/unknown/.local/bin, binaires globaux=oui)"
            .to_string()
    ));
    assert!(lines.contains(
        &"  • conda : 24.1.2 (env actif=aucun, binaires globaux=oui si env active)".to_string()
    ));
    assert_eq!(lines.last().unwrap(), "  • pip indisponible");
}

#[test]
fn queries() {
    assert_eq!(probed_commands(), vec!["python3", "python", "pip3", "pip"]);
    assert_eq!(watched_env_vars().len(), 8);
    assert_eq!(type_query("pip3"), "type -a pip3 2>/dev/null || true");
}

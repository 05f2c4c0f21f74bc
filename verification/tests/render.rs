use lib::render::{item_line, section_lines, type_line, value_line};
use lib::styles::{Styles, Theme};

#[test]
fn plain_item_shows_text_after_bullet() {
    let p = Styles::plain();
    for t in ["OS : Linux 6 (x86_64)", "a = b", "nothing here", "x : y = z"] {
        assert_eq!(item_line(&p, t), format!("  • {t}"));
    }
}

#[test]
fn coloured_item_splits_at_first_separator() {
    let s = Styles::themed(Theme::Dark);
    assert_eq!(
        item_line(&s, "pyenv : 2.4 (root = /x)"),
        "  • \x1b[38;5;81mpyenv\x1b[38;5;245m : \x1b[38;5;255m2.4 (root = /x)\x1b[0m"
    );
    assert_eq!(
        item_line(&s, "k = v"),
        "  • \x1b[38;5;81mk\x1b[38;5;245m = \x1b[38;5;255mv\x1b[0m"
    );
    assert_eq!(item_line(&s, "plain"), "  • \x1b[38;5;255mplain\x1b[0m");
}

#[test]
fn type_lines() {
    let s = Styles::themed(Theme::Light);
    assert_eq!(
        type_line(&s, "python3 is /usr/bin/python3"),
        "  • \x1b[38;5;25mpython3\x1b[38;5;242m is \x1b[38;5;236m/usr/bin/python3\x1b[0m"
    );
    assert_eq!(type_line(&s, "pip not found"), "  • \x1b[38;5;124mpip\x1b[38;5;242m not found\x1b[0m");
    assert_eq!(type_line(&s, "pip3 : non trouvé"), "  • \x1b[38;5;124mpip3\x1b[38;5;242m not found\x1b[0m");
    let p = Styles::plain();
    assert_eq!(type_line(&p, "pip3 : ailleurs"), "  • pip3 : ailleurs");
    assert_eq!(type_line(&p, "python is an alias"), "  • python is an alias");
}

#[test]
fn section_has_three_lines() {
    let p = Styles::plain();
    assert_eq!(
        section_lines(&p, "1) CONTEXTE"),
        vec![
            String::new(),
            "1) CONTEXTE".to_string(),
            "──────────────────────────────────────────────".to_string()
        ]
    );
    assert_eq!(value_line(&p, "v"), "  • v");
}

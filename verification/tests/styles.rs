use lib::styles::{resolve_theme, Styles, Theme};

#[test]
fn not_a_terminal_gives_plain_styles() {
    let s = Styles::detect(false, Some("light"), None);
    for f in [s.reset, s.title, s.section, s.key, s.value, s.neg, s.dim] {
        assert_eq!(f, "");
    }
}

#[test]
fn theme_words() {
    assert_eq!(resolve_theme(Some("Light"), None), Theme::Light);
    assert_eq!(resolve_theme(Some("ALUCARD"), Some("dark")), Theme::Light);
    assert_eq!(resolve_theme(Some("dracula"), Some("light")), Theme::Dark);
    assert_eq!(resolve_theme(Some("auto"), Some("LIGHT")), Theme::Light);
    assert_eq!(resolve_theme(None, None), Theme::Dark);
    assert_eq!(resolve_theme(None, Some("sepia")), Theme::Dark);
}

#[test]
fn terminal_palettes() {
    let light = Styles::detect(true, Some("light"), None);
    assert_eq!(light.title, "\x1b[38;5;54m");
    assert_eq!(light.reset, "\x1b[0m");
    let dark = Styles::detect(true, None, None);
    assert_eq!(dark.title, "\x1b[38;5;141m");
    assert_eq!(dark.dim, "\x1b[38;5;245m");
}

#[test]
fn plain_has_no_colour() {
    let p = Styles::plain();
    assert_eq!(p.key, "");
    assert_eq!(p.neg, "");
}

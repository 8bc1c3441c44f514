use fdsbml::color::{color_mode, ColorMode};
use fdsbml::Stoichiometry;

#[test]
fn color_words_are_read() {
    assert_eq!(color_mode("always"), ColorMode::Always);
    assert_eq!(color_mode("ansi"), ColorMode::AlwaysAnsi);
    assert_eq!(color_mode("auto"), ColorMode::Auto);
    assert_eq!(color_mode("never"), ColorMode::Never);
    assert_eq!(color_mode("Always"), ColorMode::Never);
    assert_eq!(color_mode(""), ColorMode::Never);
}

#[test]
fn coefficient_one_is_recognised() {
    assert!(Stoichiometry { mantissa: 1, scale: 0 }.is_one());
    assert!(Stoichiometry { mantissa: 100, scale: 2 }.is_one());
    assert!(!Stoichiometry { mantissa: 2, scale: 0 }.is_one());
    assert!(!Stoichiometry { mantissa: 10, scale: 0 }.is_one());
    assert!(!Stoichiometry { mantissa: 1, scale: 1 }.is_one());
    assert!(!Stoichiometry { mantissa: 0, scale: 0 }.is_one());
}

use diff_config::style::{Color, Style};

#[test]
fn default_style_is_plain() {
    let s = Style::default();
    assert_eq!(s.foreground, None);
    assert_eq!(s.background, None);
    assert!(!s.is_bold);
}

#[test]
fn normal_sets_only_the_foreground() {
    let s = Color::Red.normal();
    assert_eq!(s, Style { foreground: Some(Color::Red), background: None, is_bold: false });
    let t = Color::Fixed(200).normal();
    assert_eq!(t.foreground, Some(Color::Fixed(200)));
    assert_eq!(t.background, None);
    assert!(!t.is_bold);
}

#[test]
fn on_sets_foreground_and_background() {
    let s = Color::Green.on(Color::Fixed(22));
    assert_eq!(
        s,
        Style { foreground: Some(Color::Green), background: Some(Color::Fixed(22)), is_bold: false }
    );
    let swapped = Color::Fixed(22).on(Color::Green);
    assert_ne!(s, swapped);
    assert_eq!(swapped.foreground, Some(Color::Fixed(22)));
    assert_eq!(swapped.background, Some(Color::Green));
}

#[test]
fn bold_keeps_the_colours() {
    let s = Color::Cyan.on(Color::Black);
    let b = s.bold();
    assert!(b.is_bold);
    assert_eq!(b.foreground, Some(Color::Cyan));
    assert_eq!(b.background, Some(Color::Black));
    assert_eq!(b.bold(), b);
    assert_ne!(b, s);
    let plain_bold = Style::default().bold();
    assert_eq!(plain_bold, Style { foreground: None, background: None, is_bold: true });
}

#[test]
fn colours_compare_by_variant_and_components() {
    assert_eq!(Color::Fixed(1), Color::Fixed(1));
    assert_ne!(Color::Fixed(1), Color::Fixed(2));
    assert_ne!(Color::Fixed(1), Color::Red);
    assert_eq!(Color::RGB(1, 2, 3), Color::RGB(1, 2, 3));
    assert_ne!(Color::RGB(1, 2, 3), Color::RGB(3, 2, 1));
    let names = [
        Color::Black,
        Color::Red,
        Color::Green,
        Color::Yellow,
        Color::Blue,
        Color::Purple,
        Color::Cyan,
        Color::White,
    ];
    for (i, a) in names.iter().enumerate() {
        for (j, b) in names.iter().enumerate() {
            assert_eq!(a == b, i == j);
        }
    }
}

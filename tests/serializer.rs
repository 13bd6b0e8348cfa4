use yansi_term::decimal::push_decimal;
use yansi_term::Colour::{Black, Blue, Cyan, Fixed, Green, Purple, Red, White, Yellow, RGB};
use yansi_term::{Colour, Style, RESET};

fn prefix(s: &Style) -> (String, bool) {
    let mut f = String::new();
    let written = s.write_prefix(&mut f);
    (f, written)
}

fn suffix(s: &Style) -> String {
    let mut f = String::new();
    s.write_suffix(&mut f);
    f
}

fn foreground(c: Colour) -> String {
    let mut f = String::new();
    c.write_foreground_code(&mut f);
    f
}

fn background(c: Colour) -> String {
    let mut f = String::new();
    c.write_background_code(&mut f);
    f
}

#[test]
fn plain_style_writes_nothing() {
    let s = Style::new();
    assert!(s.is_plain());
    assert_eq!(prefix(&s), (String::new(), false));
    assert_eq!(suffix(&s), "");
    assert_eq!(s.paint(""), "");
    assert_eq!(s.paint("a\x1B[b"), "a\x1B[b");
    assert_eq!(Style::default(), s);
}

#[test]
fn styled_text_is_framed_by_prefix_and_reset() {
    let s = Style::new().italic().on(Green);
    let (p, written) = prefix(&s);
    assert!(written);
    assert_eq!(p, "\x1B[3;42m");
    assert_eq!(suffix(&s), RESET);
    assert_eq!(s.paint("text"), format!("{}text{}", p, RESET));
    assert_eq!(s.paint(""), "\x1B[3;42m\x1B[0m");
}

#[test]
fn prefix_appends_to_existing_output() {
    let mut f = String::from("xy");
    assert!(Red.bold().write_prefix(&mut f));
    assert_eq!(f, "xy\x1B[1;31m");
    Red.bold().write_suffix(&mut f);
    assert_eq!(f, "xy\x1B[1;31m\x1B[0m");
}

#[test]
fn attribute_order_ignores_construction_order() {
    let a = Style::new().strikethrough().hidden().reverse().blink().underline().italic().dimmed().bold();
    let b = Style::new().bold().dimmed().italic().underline().blink().reverse().hidden().strikethrough();
    assert_eq!(a, b);
    assert_eq!(prefix(&a).0, "\x1B[1;2;3;4;5;7;8;9m");
    assert_eq!(prefix(&b).0, "\x1B[1;2;3;4;5;7;8;9m");
    assert_eq!(Style::new().underline().bold().paint("x"), Style::new().bold().underline().paint("x"));
}

#[test]
fn background_precedes_foreground() {
    let s = Style::new().fg(Red).on(Cyan).bold();
    assert_eq!(prefix(&s).0, "\x1B[1;46;31m");
    let t = Style::new().on(Cyan).fg(Red).bold();
    assert_eq!(prefix(&t).0, "\x1B[1;46;31m");
}

#[test]
fn background_alone() {
    assert_eq!(prefix(&Style::new().on(Black)).0, "\x1B[40m");
}

#[test]
fn named_colour_codes() {
    let named = [Black, Red, Green, Yellow, Blue, Purple, Cyan, White];
    for (i, c) in named.iter().enumerate() {
        assert_eq!(foreground(*c), format!("3{}", i));
        assert_eq!(background(*c), format!("4{}", i));
    }
}

#[test]
fn extended_colour_codes_never_look_named() {
    for c in [Fixed(0), Fixed(7), Fixed(30), Fixed(255), RGB(0, 0, 0), RGB(3, 4, 7)] {
        assert!(foreground(c).starts_with("38;"));
        assert!(background(c).starts_with("48;"));
        assert!(foreground(c).len() > 3);
    }
    assert_eq!(foreground(Fixed(0)), "38;5;0");
    assert_eq!(background(Fixed(255)), "48;5;255");
    assert_eq!(foreground(RGB(0, 9, 10)), "38;2;0;9;10");
    assert_eq!(background(RGB(255, 99, 100)), "48;2;255;99;100");
}

#[test]
fn decimal_text() {
    for n in [0u8, 5, 9, 10, 19, 99, 100, 101, 200, 255] {
        let mut f = String::from("#");
        push_decimal(&mut f, n);
        assert_eq!(f, format!("#{}", n));
    }
}

#[test]
fn concrete_renders() {
    assert_eq!(Red.normal().paint("hi"), "\x1B[31mhi\x1B[0m");
    assert_eq!(Yellow.bold().paint("hi"), "\x1B[1;33mhi\x1B[0m");
    assert_eq!(Purple.on(White).paint("hi"), "\x1B[47;35mhi\x1B[0m");
    assert_eq!(Fixed(100).on(Purple).paint("hi"), "\x1B[45;38;5;100mhi\x1B[0m");
    assert_eq!(RGB(70, 130, 180).on(Blue).paint("hi"), "\x1B[44;38;2;70;130;180mhi\x1B[0m");
}

#[test]
fn serializing_twice_gives_the_same_bytes() {
    let s = RGB(1, 2, 3).on(Fixed(4)).underline().blink();
    assert_eq!(s.paint("z"), s.paint("z"));
    assert_eq!(prefix(&s), prefix(&s));
    assert_eq!(prefix(&s).0, "\x1B[4;5;48;5;4;38;2;1;2;3m");
}

#[test]
fn every_attribute_and_colour() {
    let s = Style {
        foreground: Some(White),
        background: Some(Black),
        is_bold: true,
        is_dimmed: true,
        is_italic: true,
        is_underline: true,
        is_blink: true,
        is_reverse: true,
        is_hidden: true,
        is_strikethrough: true,
    };
    assert!(!s.is_plain());
    assert_eq!(s.paint("!"), "\x1B[1;2;3;4;5;7;8;9;40;37m!\x1B[0m");
}

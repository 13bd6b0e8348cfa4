use yansi_term::Colour::{
    Black, Blue, Cyan, Fixed, Green, Purple, Red, White, Yellow, RGB,
};
use yansi_term::Style;

#[test]
fn plain() {
    assert_eq!(Style::default().paint("text/plain").to_string(), "text/plain".to_string());
}

#[test]
fn red() {
    assert_eq!(Red.paint("hi").to_string(), "\x1B[31mhi\x1B[0m".to_string());
}

#[test]
fn black() {
    assert_eq!(Black.normal().paint("hi").to_string(), "\x1B[30mhi\x1B[0m".to_string());
}

#[test]
fn yellow_bold() {
    assert_eq!(Yellow.bold().paint("hi").to_string(), "\x1B[1;33mhi\x1B[0m".to_string());
}

#[test]
fn yellow_bold_2() {
    assert_eq!(Yellow.normal().bold().paint("hi").to_string(), "\x1B[1;33mhi\x1B[0m".to_string());
}

#[test]
fn blue_underline() {
    assert_eq!(Blue.underline().paint("hi").to_string(), "\x1B[4;34mhi\x1B[0m".to_string());
}

#[test]
fn green_bold_ul() {
    assert_eq!(Green.bold().underline().paint("hi").to_string(), "\x1B[1;4;32mhi\x1B[0m".to_string());
}

#[test]
fn green_bold_ul_2() {
    assert_eq!(Green.underline().bold().paint("hi").to_string(), "\x1B[1;4;32mhi\x1B[0m".to_string());
}

#[test]
fn purple_on_white() {
    assert_eq!(Purple.on(White).paint("hi").to_string(), "\x1B[47;35mhi\x1B[0m".to_string());
}

#[test]
fn purple_on_white_2() {
    assert_eq!(Purple.normal().on(White).paint("hi").to_string(), "\x1B[47;35mhi\x1B[0m".to_string());
}

#[test]
fn yellow_on_blue() {
    assert_eq!(Style::new().on(Blue).fg(Yellow).paint("hi").to_string(), "\x1B[44;33mhi\x1B[0m".to_string());
}

#[test]
fn yellow_on_blue_2() {
    assert_eq!(Cyan.on(Blue).fg(Yellow).paint("hi").to_string(), "\x1B[44;33mhi\x1B[0m".to_string());
}

#[test]
fn cyan_bold_on_white() {
    assert_eq!(Cyan.bold().on(White).paint("hi").to_string(), "\x1B[1;47;36mhi\x1B[0m".to_string());
}

#[test]
fn cyan_ul_on_white() {
    assert_eq!(Cyan.underline().on(White).paint("hi").to_string(), "\x1B[4;47;36mhi\x1B[0m".to_string());
}

#[test]
fn cyan_bold_ul_on_white() {
    assert_eq!(Cyan.bold().underline().on(White).paint("hi").to_string(), "\x1B[1;4;47;36mhi\x1B[0m".to_string());
}

#[test]
fn cyan_ul_bold_on_white() {
    assert_eq!(Cyan.underline().bold().on(White).paint("hi").to_string(), "\x1B[1;4;47;36mhi\x1B[0m".to_string());
}

#[test]
fn fixed() {
    assert_eq!(Fixed(100).paint("hi").to_string(), "\x1B[38;5;100mhi\x1B[0m".to_string());
}

#[test]
fn fixed_on_purple() {
    assert_eq!(Fixed(100).on(Purple).paint("hi").to_string(), "\x1B[45;38;5;100mhi\x1B[0m".to_string());
}

#[test]
fn fixed_on_fixed() {
    assert_eq!(Fixed(100).on(Fixed(200)).paint("hi").to_string(), "\x1B[48;5;200;38;5;100mhi\x1B[0m".to_string());
}

#[test]
fn rgb() {
    assert_eq!(RGB(70,130,180).paint("hi").to_string(), "\x1B[38;2;70;130;180mhi\x1B[0m".to_string());
}

#[test]
fn rgb_on_blue() {
    assert_eq!(RGB(70,130,180).on(Blue).paint("hi").to_string(), "\x1B[44;38;2;70;130;180mhi\x1B[0m".to_string());
}

#[test]
fn blue_on_rgb() {
    assert_eq!(Blue.on(RGB(70,130,180)).paint("hi").to_string(), "\x1B[48;2;70;130;180;34mhi\x1B[0m".to_string());
}

#[test]
fn rgb_on_rgb() {
    assert_eq!(RGB(70,130,180).on(RGB(5,10,15)).paint("hi").to_string(), "\x1B[48;2;5;10;15;38;2;70;130;180mhi\x1B[0m".to_string());
}

#[test]
fn bold() {
    assert_eq!(Style::new().bold().paint("hi").to_string(), "\x1B[1mhi\x1B[0m".to_string());
}

#[test]
fn underline() {
    assert_eq!(Style::new().underline().paint("hi").to_string(), "\x1B[4mhi\x1B[0m".to_string());
}

#[test]
fn bunderline() {
    assert_eq!(Style::new().bold().underline().paint("hi").to_string(), "\x1B[1;4mhi\x1B[0m".to_string());
}

#[test]
fn dimmed() {
    assert_eq!(Style::new().dimmed().paint("hi").to_string(), "\x1B[2mhi\x1B[0m".to_string());
}

#[test]
fn italic() {
    assert_eq!(Style::new().italic().paint("hi").to_string(), "\x1B[3mhi\x1B[0m".to_string());
}

#[test]
fn blink() {
    assert_eq!(Style::new().blink().paint("hi").to_string(), "\x1B[5mhi\x1B[0m".to_string());
}

#[test]
fn reverse() {
    assert_eq!(Style::new().reverse().paint("hi").to_string(), "\x1B[7mhi\x1B[0m".to_string());
}

#[test]
fn hidden() {
    assert_eq!(Style::new().hidden().paint("hi").to_string(), "\x1B[8mhi\x1B[0m".to_string());
}

#[test]
fn stricken() {
    assert_eq!(Style::new().strikethrough().paint("hi").to_string(), "\x1B[9mhi\x1B[0m".to_string());
}

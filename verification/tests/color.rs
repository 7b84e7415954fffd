use oscillator::utils::color::{hex_digit, Color};

#[test]
fn new_is_opaque_black() {
    let c = Color::new();
    assert_eq!((c.r, c.g, c.b, c.a), (0, 0, 0, 255));
}

#[test]
fn parse_six_digits() {
    let c = Color::parse("#ff8000").unwrap();
    assert_eq!(c, Color { r: 255, g: 128, b: 0, a: 0 });
}

#[test]
fn parse_eight_digits() {
    let c = Color::parse("#0A141E28").unwrap();
    assert_eq!(c, Color { r: 10, g: 20, b: 30, a: 40 });
}

#[test]
fn parse_mixed_case() {
    assert_eq!(Color::parse("#AbCdEf"), Some(Color { r: 0xab, g: 0xcd, b: 0xef, a: 0 }));
}

#[test]
fn parse_refuses_wrong_length() {
    assert_eq!(Color::parse(""), None);
    assert_eq!(Color::parse("#"), None);
    assert_eq!(Color::parse("#fff"), None);
    assert_eq!(Color::parse("#ff80001"), None);
    assert_eq!(Color::parse("#ff80001122"), None);
}

#[test]
fn parse_refuses_missing_hash() {
    assert_eq!(Color::parse("xff8000"), None);
    assert_eq!(Color::parse("0ff8000"), None);
}

#[test]
fn parse_refuses_other_characters() {
    assert_eq!(Color::parse("#ff80g0"), None);
    assert_eq!(Color::parse("#+f8000"), None);
    assert_eq!(Color::parse("#ff 000"), None);
    assert_eq!(Color::parse("#ff8000zz"), None);
    assert_eq!(Color::parse("#ffé00"), None);
}

#[test]
fn from_text_reads_a_well_formed_text() {
    assert_eq!(Color::from_text("#ff8000"), Color { r: 255, g: 128, b: 0, a: 0 });
    assert_eq!(Color::from_text("#0A141E28"), Color { r: 10, g: 20, b: 30, a: 40 });
    assert_eq!(Color::from_text("#000000ff"), Color::new());
}

#[test]
fn hex_digits() {
    assert_eq!(hex_digit('0'), Some(0));
    assert_eq!(hex_digit('9'), Some(9));
    assert_eq!(hex_digit('a'), Some(10));
    assert_eq!(hex_digit('f'), Some(15));
    assert_eq!(hex_digit('A'), Some(10));
    assert_eq!(hex_digit('F'), Some(15));
    assert_eq!(hex_digit('g'), None);
    assert_eq!(hex_digit('G'), None);
    assert_eq!(hex_digit('/'), None);
    assert_eq!(hex_digit(':'), None);
    assert_eq!(hex_digit('@'), None);
    assert_eq!(hex_digit('`'), None);
}

#[test]
fn pixel_packs_alpha_red_green_blue() {
    assert_eq!(Color { r: 0x11, g: 0x22, b: 0x33, a: 0x44 }.pixel(), 0x4411_2233);
    assert_eq!(Color { r: 255, g: 255, b: 255, a: 255 }.pixel(), 0xffff_ffff);
    assert_eq!(Color::new().pixel(), 0xff00_0000);
    assert_eq!(Color::parse("#ff8000").unwrap().pixel(), 0x00ff_8000);
}

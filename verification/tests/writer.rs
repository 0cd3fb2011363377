use solarized_ansi::palette::Color;
use solarized_ansi::style::{FontStyle, Style, BOLD, ITALIC, UNDERLINE};
use solarized_ansi::writer::{write_as_ansi, write_region, UnrecognizedColorError};

const GREEN: Color = Color { r: 0x85, g: 0x99, b: 0x00, a: 0xff };
const BLUE: Color = Color { r: 0x26, g: 0x8b, b: 0xd2, a: 0xff };
const BASE0: Color = Color { r: 0x83, g: 0x94, b: 0x96, a: 0xff };
const UNKNOWN: Color = Color { r: 1, g: 2, b: 3, a: 0xff };
const BLACK: Color = Color { r: 0, g: 0, b: 0, a: 0 };

fn style(foreground: Color, bits: u8) -> Style {
    Style { foreground, background: BLACK, font_style: FontStyle { bits } }
}

fn written(regions: &[(Style, &str)]) -> String {
    let mut sink = String::new();
    write_as_ansi(&mut sink, regions).unwrap();
    sink
}

fn count(haystack: &str, needle: &str) -> usize {
    haystack.matches(needle).count()
}

#[test]
fn green_bold_example() {
    let out = written(&[(style(GREEN, BOLD), "green_bold")]);
    assert_eq!(out, "\x1b[38;5;2m\x1b[1m\x1b[23m\x1b[24mgreen_bold\x1b[m");
    assert_eq!(out.as_bytes(), b"\x1b[38;5;2m\x1b[1m\x1b[23m\x1b[24mgreen_bold\x1b[m");
}

#[test]
fn no_flags() {
    assert_eq!(written(&[(style(BLUE, 0), "t")]), "\x1b[38;5;4m\x1b[21m\x1b[23m\x1b[24mt\x1b[m");
}

#[test]
fn bold_only() {
    assert_eq!(written(&[(style(BLUE, BOLD), "t")]), "\x1b[38;5;4m\x1b[1m\x1b[23m\x1b[24mt\x1b[m");
}

#[test]
fn italic_only() {
    assert_eq!(written(&[(style(BLUE, ITALIC), "t")]), "\x1b[38;5;4m\x1b[21m\x1b[3m\x1b[24mt\x1b[m");
}

#[test]
fn underline_only() {
    assert_eq!(
        written(&[(style(BLUE, UNDERLINE), "t")]),
        "\x1b[38;5;4m\x1b[21m\x1b[23m\x1b[4mt\x1b[m"
    );
}

#[test]
fn bold_and_italic() {
    assert_eq!(
        written(&[(style(BLUE, BOLD | ITALIC), "t")]),
        "\x1b[38;5;4m\x1b[1m\x1b[3m\x1b[24mt\x1b[m"
    );
}

#[test]
fn bold_and_underline() {
    assert_eq!(
        written(&[(style(BLUE, BOLD | UNDERLINE), "t")]),
        "\x1b[38;5;4m\x1b[1m\x1b[23m\x1b[4mt\x1b[m"
    );
}

#[test]
fn italic_and_underline() {
    assert_eq!(
        written(&[(style(BLUE, ITALIC | UNDERLINE), "t")]),
        "\x1b[38;5;4m\x1b[21m\x1b[3m\x1b[4mt\x1b[m"
    );
}

#[test]
fn all_flags() {
    assert_eq!(
        written(&[(style(BLUE, BOLD | ITALIC | UNDERLINE), "t")]),
        "\x1b[38;5;4m\x1b[1m\x1b[3m\x1b[4mt\x1b[m"
    );
}

#[test]
fn one_directive_for_each_flag() {
    for bits in 0..8u8 {
        let out = written(&[(style(BASE0, bits), "")]);
        assert_eq!(count(&out, "\x1b[1m") + count(&out, "\x1b[21m"), 1);
        assert_eq!(count(&out, "\x1b[3m") + count(&out, "\x1b[23m"), 1);
        assert_eq!(count(&out, "\x1b[4m") + count(&out, "\x1b[24m"), 1);
        assert_eq!(count(&out, "\x1b[1m") == 1, bits & BOLD != 0);
        assert_eq!(count(&out, "\x1b[3m") == 1, bits & ITALIC != 0);
        assert_eq!(count(&out, "\x1b[4m") == 1, bits & UNDERLINE != 0);
    }
}

#[test]
fn bits_above_the_flags_change_nothing() {
    for bits in 0..=255u8 {
        assert_eq!(written(&[(style(GREEN, bits), "x")]), written(&[(style(GREEN, bits & 7), "x")]));
    }
}

#[test]
fn contains_asks_for_every_flag() {
    let both = FontStyle { bits: BOLD | ITALIC };
    assert!(both.contains(FontStyle { bits: BOLD }));
    assert!(both.contains(FontStyle { bits: ITALIC }));
    assert!(both.contains(FontStyle { bits: BOLD | ITALIC }));
    assert!(both.contains(FontStyle { bits: 0 }));
    assert!(!both.contains(FontStyle { bits: UNDERLINE }));
    assert!(!both.contains(FontStyle { bits: BOLD | UNDERLINE }));
    assert!(!FontStyle { bits: 0 }.contains(FontStyle { bits: BOLD }));
    assert!(FontStyle { bits: 0 }.contains(FontStyle { bits: 8 }));
    assert!(FontStyle { bits: 0xf9 }.contains(FontStyle { bits: BOLD }));
    assert!(!FontStyle { bits: 0xf8 }.contains(FontStyle { bits: BOLD }));
}

#[test]
fn parts_come_in_their_order() {
    let out = written(&[(style(GREEN, ITALIC), "text")]);
    let colour = out.find("\x1b[38;5;2m").unwrap();
    let bold = out.find("\x1b[21m").unwrap();
    let italic = out.find("\x1b[3m").unwrap();
    let underline = out.find("\x1b[24m").unwrap();
    let text = out.find("text").unwrap();
    let reset = out.find("\x1b[m").unwrap();
    assert_eq!(colour, 0);
    assert!(colour < bold && bold < italic && italic < underline);
    assert!(underline < text && text < reset);
    assert_eq!(reset + "\x1b[m".len(), out.len());
}

#[test]
fn regions_come_in_their_order() {
    let first = (style(GREEN, BOLD), "one");
    let second = (style(BASE0, 0), "two");
    let third = (style(BLUE, UNDERLINE), "three");
    let out = written(&[first, second, third]);
    assert_eq!(
        out,
        "\x1b[38;5;2m\x1b[1m\x1b[23m\x1b[24mone\x1b[m\
         \x1b[39m\x1b[21m\x1b[23m\x1b[24mtwo\x1b[m\
         \x1b[38;5;4m\x1b[21m\x1b[23m\x1b[4mthree\x1b[m"
    );
    assert_eq!(out, written(&[first]) + &written(&[second]) + &written(&[third]));
    assert_eq!(out, written(&[first, second]) + &written(&[third]));
}

#[test]
fn no_regions_write_nothing() {
    let mut sink = String::from("kept");
    assert_eq!(write_as_ansi(&mut sink, &[]), Ok(()));
    assert_eq!(sink, "kept");
}

#[test]
fn the_sink_keeps_what_it_held() {
    let mut sink = String::from("before ");
    write_as_ansi(&mut sink, &[(style(BASE0, 0), "after")]).unwrap();
    assert_eq!(sink, "before \x1b[39m\x1b[21m\x1b[23m\x1b[24mafter\x1b[m");
}

#[test]
fn text_is_written_as_it_is() {
    let text = "fn main() { println!(\"h\u{e9}llo \u{1f600}\\n\"); }\n\t\x1b[1m";
    let out = written(&[(style(BASE0, 0), text)]);
    assert_eq!(out, format!("\x1b[39m\x1b[21m\x1b[23m\x1b[24m{}\x1b[m", text));
}

#[test]
fn empty_text_still_gets_its_directives() {
    assert_eq!(written(&[(style(BASE0, 0), "")]), "\x1b[39m\x1b[21m\x1b[23m\x1b[24m\x1b[m");
}

#[test]
fn the_background_is_not_rendered() {
    let mut dark = style(GREEN, BOLD);
    dark.background = Color { r: 0x00, g: 0x2b, b: 0x36, a: 0xff };
    let mut odd = style(GREEN, BOLD);
    odd.background = UNKNOWN;
    assert_eq!(written(&[(dark, "x")]), written(&[(odd, "x")]));
    assert_eq!(written(&[(dark, "x")]), written(&[(style(GREEN, BOLD), "x")]));
}

#[test]
fn writing_twice_gives_the_same_output() {
    let regions = [
        (style(GREEN, BOLD), "fn"),
        (style(BASE0, 0), " "),
        (style(BLUE, ITALIC | UNDERLINE), "main"),
    ];
    let mut first = String::new();
    let mut second = String::new();
    assert_eq!(write_as_ansi(&mut first, &regions), Ok(()));
    assert_eq!(write_as_ansi(&mut second, &regions), Ok(()));
    assert_eq!(first.as_bytes(), second.as_bytes());
    assert!(!first.is_empty());
}

#[test]
fn failing_twice_gives_the_same_output() {
    let regions = [(style(GREEN, BOLD), "fn"), (style(UNKNOWN, 0), "oops")];
    let mut first = String::new();
    let mut second = String::new();
    let one = write_as_ansi(&mut first, &regions);
    let two = write_as_ansi(&mut second, &regions);
    assert_eq!(one, two);
    assert_eq!(first, second);
}

#[test]
fn an_unknown_colour_fails() {
    let mut sink = String::new();
    let result = write_as_ansi(&mut sink, &[(style(UNKNOWN, 0), "text")]);
    assert_eq!(result, Err(UnrecognizedColorError { index: 0, color: UNKNOWN }));
    assert_eq!(sink, "");
}

#[test]
fn an_unknown_colour_ends_the_call_where_it_stands() {
    let regions = [
        (style(GREEN, 0), "one"),
        (style(UNKNOWN, BOLD), "two"),
        (style(BLUE, 0), "three"),
        (style(BLACK, 0), "four"),
    ];
    let mut sink = String::new();
    let result = write_as_ansi(&mut sink, &regions);
    assert_eq!(result, Err(UnrecognizedColorError { index: 1, color: UNKNOWN }));
    assert_eq!(sink, "\x1b[38;5;2m\x1b[21m\x1b[23m\x1b[24mone\x1b[m");
    assert_eq!(sink, written(&regions[..1]));
}

#[test]
fn one_region_alone() {
    let mut sink = String::from(">");
    assert_eq!(write_region(&mut sink, style(BLUE, BOLD | UNDERLINE), "b"), Ok(()));
    assert_eq!(sink, ">\x1b[38;5;4m\x1b[1m\x1b[23m\x1b[4mb\x1b[m");
}

#[test]
fn one_region_of_an_unknown_colour() {
    let mut sink = String::from(">");
    assert_eq!(write_region(&mut sink, style(UNKNOWN, BOLD), "b"), Err(UNKNOWN));
    assert_eq!(sink, ">");
}

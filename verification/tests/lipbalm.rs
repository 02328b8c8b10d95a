use lipbalm::colors::Color;
use lipbalm::Lipbalm;

#[test]
fn simple_render() {
    let lipbalm = Lipbalm::new();
    let result = lipbalm.render("Hello, world!");
    assert_eq!(result, "\x1b[mHello, world!\x1b[0m");
}

#[test]
fn with_styles() {
    let result = Lipbalm::new()
        .bold(true)
        .underline(true)
        .foreground(Color::Red)
        .background(Color::Green)
        .render("Hello, world!");
    assert_eq!(result, "\x1b[31;42;1;4mHello, world!\x1b[0m");
}

#[test]
fn with_link() {
    let result = Lipbalm::new()
        .foreground(Color::Red)
        .link("https://example.com")
        .render("Hello, world!");
    assert_eq!(
        result,
        "\u{1b}]8;;https://example.com\u{1b}\\\u{1b}[31mHello, world!\u{1b}[0m\u{1b}]8;;\u{1b}\\"
    );
}

#[test]
fn with_hex_color() {
    let result = Lipbalm::new()
        .foreground(Color::Hex("#ff0000"))
        .background(Color::Hex("#00ff00"))
        .render("Hello, world!");
    assert_eq!(result, "\x1b[38;2;255;0;0;48;2;0;255;0mHello, world!\x1b[0m");
}

#[test]
fn with_rgb_color() {
    let result = Lipbalm::new()
        .foreground(Color::Rgb(255, 0, 0))
        .background(Color::Rgb(0, 255, 0))
        .render("Hello, world!");
    assert_eq!(result, "\x1b[38;2;255;0;0;48;2;0;255;0mHello, world!\x1b[0m");
}

#[test]
fn with_c256_color() {
    let result = Lipbalm::new()
        .foreground(Color::C256(1))
        .background(Color::C256(2))
        .render("Hello, world!");
    assert_eq!(result, "\x1b[38;5;1;48;5;2mHello, world!\x1b[0m");
}

#[test]
fn with_reset_color() {
    let result = Lipbalm::new()
        .foreground(Color::Red)
        .foreground(Color::Reset)
        .render("Hello, world!");
    assert_eq!(result, "\x1b[0mHello, world!\x1b[0m");
}

#[test]
fn with_unset_style() {
    let result = Lipbalm::new()
        .bold(true)
        .underline(true)
        .bold(false)
        .underline(false)
        .render("Hello, world!");
    assert_eq!(result, "\x1b[mHello, world!\x1b[0m");
}

#[test]
fn default_builder_renders_like_new() {
    let result = Lipbalm::default().render("X");
    assert_eq!(result, "\x1b[mX\x1b[0m");
}

#[test]
fn all_attributes_in_fixed_order() {
    let result = Lipbalm::new()
        .strikethrough(true)
        .hidden(true)
        .reverse(true)
        .blink(true)
        .underline(true)
        .italic(true)
        .dim(true)
        .bold(true)
        .render("X");
    assert_eq!(result, "\x1b[1;2;3;4;5;7;8;9mX\x1b[0m");
}

#[test]
fn named_background_adds_ten() {
    let result = Lipbalm::new().background(Color::Blue).render("X");
    assert_eq!(result, "\x1b[44mX\x1b[0m");
    let bright = Lipbalm::new().background(Color::BrightRed).render("X");
    assert_eq!(bright, "\x1b[101mX\x1b[0m");
}

#[test]
fn reset_background_stays_bare() {
    let result = Lipbalm::new().background(Color::Reset).render("X");
    assert_eq!(result, "\x1b[0mX\x1b[0m");
}

#[test]
fn last_background_wins() {
    let result = Lipbalm::new()
        .background(Color::Green)
        .background(Color::C256(7))
        .render("X");
    assert_eq!(result, "\x1b[48;5;7mX\x1b[0m");
}

#[test]
fn last_link_wins() {
    let result = Lipbalm::new()
        .link("https://old.example.com")
        .link("https://example.org")
        .render("X");
    assert_eq!(
        result,
        "\x1b]8;;https://example.org\x1b\\\x1b[mX\x1b[0m\x1b]8;;\x1b\\"
    );
}

#[test]
fn link_wraps_full_styling() {
    let result = Lipbalm::new()
        .bold(true)
        .foreground(Color::C256(99))
        .link("https://example.com")
        .render("hi");
    assert_eq!(
        result,
        "\x1b]8;;https://example.com\x1b\\\x1b[38;5;99;1mhi\x1b[0m\x1b]8;;\x1b\\"
    );
}

#[test]
fn malformed_hex_degrades_to_black() {
    let result = Lipbalm::new().foreground(Color::Hex("#GG0000")).render("X");
    assert_eq!(result, "\x1b[38;2;0;0;0mX\x1b[0m");
    let short = Lipbalm::new().foreground(Color::Hex("#fff")).render("X");
    assert_eq!(short, "\x1b[38;2;0;0;0mX\x1b[0m");
}

#[test]
fn named_foreground_stays_bare() {
    let result = Lipbalm::new().foreground(Color::BrightCyan).render("X");
    assert_eq!(result, "\x1b[96mX\x1b[0m");
}

#[test]
fn empty_text_still_wrapped() {
    let result = Lipbalm::new().bold(true).render("");
    assert_eq!(result, "\x1b[1m\x1b[0m");
}

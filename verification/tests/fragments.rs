use lipbalm::colors::{hex_to_rgb, Color};
use lipbalm::styles::Styles;

#[test]
fn test_hex_to_rgb() {
    assert_eq!(hex_to_rgb("#FF0000".to_string()), (255, 0, 0));
    assert_eq!(hex_to_rgb("#00FF00".to_string()), (0, 255, 0));
    assert_eq!(hex_to_rgb("#0000FF".to_string()), (0, 0, 255));
}

#[test]
fn hex_to_rgb_mixed_case_and_values() {
    assert_eq!(hex_to_rgb("#1a2B3c".to_string()), (26, 43, 60));
    assert_eq!(hex_to_rgb("#ffffff".to_string()), (255, 255, 255));
    assert_eq!(hex_to_rgb("#000000".to_string()), (0, 0, 0));
}

#[test]
fn hex_to_rgb_malformed_gives_black() {
    assert_eq!(hex_to_rgb("".to_string()), (0, 0, 0));
    assert_eq!(hex_to_rgb("#fff".to_string()), (0, 0, 0));
    assert_eq!(hex_to_rgb("#ff00000".to_string()), (0, 0, 0));
    assert_eq!(hex_to_rgb("ff0000".to_string()), (0, 0, 0));
    assert_eq!(hex_to_rgb("0FF0000".to_string()), (0, 0, 0));
    assert_eq!(hex_to_rgb("#ff00zz".to_string()), (0, 0, 0));
}

#[test]
fn named_color_fragments() {
    assert_eq!(Color::Reset.to_ansi(), "0");
    assert_eq!(Color::Black.to_ansi(), "30");
    assert_eq!(Color::Red.to_ansi(), "31");
    assert_eq!(Color::Green.to_ansi(), "32");
    assert_eq!(Color::Yellow.to_ansi(), "33");
    assert_eq!(Color::Blue.to_ansi(), "34");
    assert_eq!(Color::Magenta.to_ansi(), "35");
    assert_eq!(Color::Cyan.to_ansi(), "36");
    assert_eq!(Color::White.to_ansi(), "37");
    assert_eq!(Color::BrightBlack.to_ansi(), "90");
    assert_eq!(Color::BrightRed.to_ansi(), "91");
    assert_eq!(Color::BrightGreen.to_ansi(), "92");
    assert_eq!(Color::BrightYellow.to_ansi(), "93");
    assert_eq!(Color::BrightBlue.to_ansi(), "94");
    assert_eq!(Color::BrightMagenta.to_ansi(), "95");
    assert_eq!(Color::BrightCyan.to_ansi(), "96");
    assert_eq!(Color::BrightWhite.to_ansi(), "97");
}

#[test]
fn indexed_color_fragments() {
    assert_eq!(Color::C256(0).to_ansi(), "5;0");
    assert_eq!(Color::C256(42).to_ansi(), "5;42");
    assert_eq!(Color::C256(255).to_ansi(), "5;255");
}

#[test]
fn rgb_color_fragments() {
    assert_eq!(Color::Rgb(255, 0, 0).to_ansi(), "2;255;0;0");
    assert_eq!(Color::Rgb(0, 255, 0).to_ansi(), "2;0;255;0");
    assert_eq!(Color::Rgb(0, 0, 255).to_ansi(), "2;0;0;255");
    assert_eq!(Color::Rgb(12, 34, 56).to_ansi(), "2;12;34;56");
}

#[test]
fn hex_color_fragments() {
    assert_eq!(Color::Hex("#FF0000").to_ansi(), "2;255;0;0");
    assert_eq!(Color::Hex("#00FF00").to_ansi(), "2;0;255;0");
    assert_eq!(Color::Hex("#0000FF").to_ansi(), "2;0;0;255");
}

#[test]
fn hex_fragment_matches_rgb_fragment() {
    assert_eq!(
        Color::Hex("#1a2B3c").to_ansi(),
        Color::Rgb(26, 43, 60).to_ansi()
    );
}

#[test]
fn style_fragments_skip_six() {
    assert_eq!(Styles::Reset.to_ansi(), "0");
    assert_eq!(Styles::Bold.to_ansi(), "1");
    assert_eq!(Styles::Dim.to_ansi(), "2");
    assert_eq!(Styles::Italic.to_ansi(), "3");
    assert_eq!(Styles::Underline.to_ansi(), "4");
    assert_eq!(Styles::Blink.to_ansi(), "5");
    assert_eq!(Styles::Reverse.to_ansi(), "7");
    assert_eq!(Styles::Hidden.to_ansi(), "8");
    assert_eq!(Styles::Strikethrough.to_ansi(), "9");
}

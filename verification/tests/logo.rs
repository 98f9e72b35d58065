use figex::logo::{
    banner_from, conversion_result, logo_banner, logo_lines, render_logo, EmbeddedFonts, LogoError,
    LogoRenderer,
};

fn no_fonts() -> EmbeddedFonts {
    EmbeddedFonts { files: vec![] }
}

#[test]
fn logo_renderer_rejects_invalid_utf8() {
    let error = match LogoRenderer::from_font_data("inline-font", &[0xff]) {
        Ok(_) => panic!("invalid UTF-8 should fail"),
        Err(e) => e,
    };

    assert_eq!(error.message(), "Font file is not valid UTF-8");
}

#[test]
fn logo_renderer_rejects_invalid_figlet_content() {
    let error = match LogoRenderer::from_font_data("inline-font", b"not a figlet font") {
        Ok(_) => panic!("invalid figlet data should fail"),
        Err(e) => e,
    };

    assert!(error
        .message()
        .starts_with("Failed to parse FIGlet font: "));
}

#[test]
fn logo_renderer_returns_error_for_missing_fonts() {
    let error = match LogoRenderer::from_embedded_font("missing-font", &no_fonts()) {
        Ok(_) => panic!("missing font should fail"),
        Err(e) => e,
    };

    assert!(error
        .message()
        .contains("Font 'missing-font' not found. Tried variants:"));
    assert_eq!(
        error.message(),
        "Font 'missing-font' not found. Tried variants: [\"missing-font.flf\"]"
    );
}

#[test]
fn render_logo_adds_context_when_font_loading_fails() {
    let error = render_logo("missing-font", "FIGEX", &no_fonts())
        .expect_err("missing embedded font should include context");

    assert_eq!(error.message(), "Failed to load font: missing-font");
}

#[test]
fn logo_banner_reports_logo_errors_as_one_line() {
    let line = logo_banner("missing-font", "FIGEX CLI", &no_fonts())
        .expect_err("missing font should give an error line");
    assert_eq!(line, "Error printing logo: Failed to load font: missing-font");
}

#[test]
fn embedded_fonts_are_found_under_their_variant_names() {
    let fonts = EmbeddedFonts {
        files: vec![("DOS Rebel.flf".to_string(), vec![0xff])],
    };
    let error = match LogoRenderer::from_embedded_font("DOS_Rebel", &fonts) {
        Ok(_) => panic!("the file is not UTF-8"),
        Err(e) => e,
    };
    // The space variant was found and read, so the error is about its content.
    assert_eq!(error.message(), "Font file is not valid UTF-8");
    assert_eq!(fonts.get("DOS Rebel.flf"), Some(&vec![0xff]));
    assert_eq!(fonts.get("DOS_Rebel.flf"), None);
}

#[test]
fn logo_lines_color_each_line_in_bold_white() {
    let lines = logo_lines("ab\r\ncd\n\nx");
    assert_eq!(
        lines,
        vec![
            "\x1b[1m\x1b[38;2;255;255;255mab\x1b[39m\x1b[0m",
            "\x1b[1m\x1b[38;2;255;255;255mcd\x1b[39m\x1b[0m",
            "\x1b[1m\x1b[38;2;255;255;255m\x1b[39m\x1b[0m",
            "\x1b[1m\x1b[38;2;255;255;255mx\x1b[39m\x1b[0m",
        ]
    );
    assert!(logo_lines("").is_empty());
}

#[test]
fn unsafe_font_headers_are_detected() {
    let fonts = EmbeddedFonts {
        files: vec![("bad.flf".to_string(), b"flf2a$ 1 1 1 0 -1\nx@\n".to_vec())],
    };
    assert!(!fonts.all_parse_safely());
    let fonts = EmbeddedFonts {
        files: vec![("ok.flf".to_string(), b"not a figlet font".to_vec())],
    };
    assert!(fonts.all_parse_safely());
}

/// A one-line-high FIGlet font whose glyph for each printable ASCII
/// character is the character itself.
fn plain_font() -> Vec<u8> {
    let mut text = String::from("flf2a$ 1 1 2 -1 0\n");
    for code in 32u8..=126 {
        let glyph = if code == b' ' { '$' } else { code as char };
        text.push_str(&format!("{glyph}@\n"));
    }
    text.into_bytes()
}

#[test]
fn render_logo_renders_with_an_embedded_font() {
    let fonts = EmbeddedFonts {
        files: vec![("Plain.flf".to_string(), plain_font())],
    };
    assert!(fonts.all_parse_safely());
    let logo = render_logo("Plain", "AB", &fonts).expect("the font should render");
    assert_eq!(logo, "AB\n");
    let banner = logo_banner("Plain", "A B", &fonts).expect("the banner should render");
    assert_eq!(banner, vec!["\x1b[1m\x1b[38;2;255;255;255mA B\x1b[39m\x1b[0m".to_string()]);
}

#[test]
fn renderer_rejects_empty_text() {
    let fonts = EmbeddedFonts {
        files: vec![("Plain.flf".to_string(), plain_font())],
    };
    let renderer = match LogoRenderer::from_embedded_font("Plain", &fonts) {
        Ok(r) => r,
        Err(e) => panic!("embedded font should load: {}", e.message()),
    };
    let error = renderer.render("").expect_err("empty text should fail");

    assert_eq!(error.message(), "Failed to convert text '' using font 'Plain'");
}

#[test]
fn renderer_renders_the_figure_of_its_font() {
    let renderer = match LogoRenderer::from_font_data("Plain", &plain_font()) {
        Ok(r) => r,
        Err(e) => panic!("font should load: {}", e.message()),
    };
    assert_eq!(renderer.render("Hi").expect("should render"), "Hi\n");
    // No glyph for any character of the text: nothing is rendered.
    let error = renderer.render("\u{3042}").expect_err("no glyph should fail");
    assert_eq!(error.message(), "Failed to convert text '\u{3042}' using font 'Plain'");
}

#[test]
fn conversion_result_keeps_the_figure_or_names_text_and_font() {
    assert_eq!(conversion_result(Some("X\n".to_string()), "X", "F").expect("figure"), "X\n");
    let error = conversion_result(None, "X", "F").expect_err("nothing rendered");
    assert!(matches!(&error, LogoError::ConvertFailed { text, font_name } if text == "X" && font_name == "F"));
}

#[test]
fn banner_from_paints_lines_or_reports_one_error_line() {
    assert_eq!(
        banner_from(Ok("a\nb\n".to_string())).expect("lines"),
        vec![
            "\x1b[1m\x1b[38;2;255;255;255ma\x1b[39m\x1b[0m".to_string(),
            "\x1b[1m\x1b[38;2;255;255;255mb\x1b[39m\x1b[0m".to_string(),
        ]
    );
    let line = banner_from(Err(LogoError::ConvertFailed { text: "t".to_string(), font_name: "f".to_string() }))
        .expect_err("error line");
    assert_eq!(line, "Error printing logo: Failed to convert text 't' using font 'f'");
}

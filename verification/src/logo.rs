//! The start-up logo: font lookup among the embedded fonts, FIGlet
//! rendering, and the colored lines that are printed.

use vstd::prelude::*;

use figlet_rs::FIGlet;
use owo_colors::OwoColorize;
use vstd::utf8::{decode_utf8, valid_utf8};

use crate::flf::{figlet_parse_is_safe, figlet_parse_safe};
use crate::font::{font_name_variants, generate_font_name_variants};
use crate::runtime::texts;
use crate::text::{append_str, debug_quoted, debug_text, dec, lines_spec, split_lines, str_eq, string_of};

verus! {

/// The message that `FIGlet::from_content` rejects `content` with, or
/// `None` when it accepts it.
pub uninterp spec fn figlet_parse_error(content: Seq<char>) -> Option<Seq<char>>;

/// Calls `figlet_rs::FIGlet::from_content` and keeps its verdict. The
/// contract names the verdict `figlet_parse_error`. The crate's source
/// rejects an empty text, which has no header line. The parser panics on
/// some malformed headers; `figlet_parse_safe` leaves those out.
#[verifier::external_body]
fn parse_figlet(content: &str) -> (res: Result<(), String>)
    requires
        figlet_parse_safe(content@),
    ensures
        res is Ok <==> figlet_parse_error(content@) is None,
        res matches Err(e) ==> figlet_parse_error(content@) == Some(e@),
        content@.len() == 0 ==> res is Err,
{
    FIGlet::from_content(content).map(|_font| ())
}

/// The text that `FIGlet::convert` renders `text` to, written with
/// `to_string`, in the font parsed from `font_text`; `None` where the font
/// has a glyph for none of the characters of `text`.
pub uninterp spec fn figlet_rendered(font_text: Seq<char>, text: Seq<char>) -> Option<Seq<char>>;

/// Parses `font_text` with `figlet_rs::FIGlet::from_content`, renders
/// `text` with `FIGlet::convert` and writes the figure with `to_string`.
/// The figure depends on the font text and the message alone (glyphs are
/// looked up by character code), and the contract names it
/// `figlet_rendered`. The crate's source renders nothing for an empty
/// message. The parse cannot fail here: `requires` asks for a font that the
/// parser accepts, without panicking.
#[verifier::external_body]
fn figlet_render(font_text: &str, text: &str) -> (res: Option<String>)
    requires
        figlet_parse_safe(font_text@),
        figlet_parse_error(font_text@) is None,
    ensures
        match res {
            Some(s) => figlet_rendered(font_text@, text@) == Some(s@),
            None => figlet_rendered(font_text@, text@) is None,
        },
        text@.len() == 0 ==> res is None,
{
    FIGlet::from_content(font_text).ok().and_then(|font| font.convert(text).map(|figure| figure.to_string()))
}

/// Calls `owo_colors::OwoColorize::truecolor` and then `bold` on `text`
/// and formats the result: the crate writes the bold code, the 24-bit
/// foreground code, the text, the foreground reset and the full reset.
#[verifier::external_body]
fn paint_bold_truecolor(text: &str, r: u8, g: u8, b: u8) -> (res: String)
    ensures
        res@ == painted_text(text@, r, g, b),
{
    format!("{}", text.truecolor(r, g, b).bold())
}

/// A text in bold with 24-bit foreground color (r, g, b), as ANSI escapes.
pub open spec fn painted_text(text: Seq<char>, r: u8, g: u8, b: u8) -> Seq<char> {
    "\x1b[1m\x1b[38;2;"@ + dec(r as nat) + ";"@ + dec(g as nat) + ";"@ + dec(b as nat) + "m"@
        + text + "\x1b[39m\x1b[0m"@
}

/// The colors that the logo's lines cycle through.
pub open spec fn logo_palette() -> Seq<(u8, u8, u8)> {
    seq![(255u8, 255u8, 255u8)]
}

/// Line `i` of the logo as printed: in bold, in the palette color for its
/// position.
pub open spec fn logo_line_text(line: Seq<char>, i: int) -> Seq<char> {
    let c = logo_palette()[i % (logo_palette().len() as int)];
    painted_text(line, c.0, c.1, c.2)
}

/// The printed lines of a rendered logo.
pub open spec fn printed_logo(rendered: Seq<char>) -> Seq<Seq<char>> {
    Seq::new(lines_spec(rendered).len(), |i: int| logo_line_text(lines_spec(rendered)[i], i))
}

/// A `Vec` of strings written the way its `Debug` formatting writes it.
pub open spec fn debug_list_text(items: Seq<Seq<char>>) -> Seq<char> {
    "["@ + debug_items(items) + "]"@
}

/// The items of a debug list, each quoted, separated by `", "`.
pub open spec fn debug_items(items: Seq<Seq<char>>) -> Seq<char>
    decreases items.len(),
{
    if items.len() == 0 {
        Seq::empty()
    } else if items.len() == 1 {
        debug_text(items[0])
    } else {
        debug_items(items.drop_last()) + ", "@ + debug_text(items.last())
    }
}

/// Why a logo could not be produced.
#[derive(Debug)]
pub enum LogoError {
    /// The font file is not UTF-8.
    InvalidUtf8,
    /// The FIGlet parser rejected the font, with its message.
    InvalidFont(String),
    /// No embedded font goes by any of the tried names.
    FontNotFound { font_name: String, variants: Vec<String> },
    /// The font renders nothing for the text.
    ConvertFailed { text: String, font_name: String },
    /// Loading the font failed, for the reason in `cause`.
    LoadFailed { font_name: String, cause: Box<LogoError> },
}

impl LogoError {
    /// The message of the error.
    pub open spec fn message_spec(&self) -> Seq<char> {
        match self {
            LogoError::InvalidUtf8 => "Font file is not valid UTF-8"@,
            LogoError::InvalidFont(e) => "Failed to parse FIGlet font: "@ + e@,
            LogoError::FontNotFound { font_name, variants } => "Font '"@ + font_name@
                + "' not found. Tried variants: "@ + debug_list_text(texts(variants@)),
            LogoError::ConvertFailed { text, font_name } => "Failed to convert text '"@ + text@
                + "' using font '"@ + font_name@ + "'"@,
            LogoError::LoadFailed { font_name, cause } => "Failed to load font: "@ + font_name@,
        }
    }

    /// The message of the error.
    pub fn message(&self) -> (res: String)
        ensures
            res@ == self.message_spec(),
    {
        match self {
            LogoError::InvalidUtf8 => string_of("Font file is not valid UTF-8"),
            LogoError::InvalidFont(e) => {
                let mut s = string_of("Failed to parse FIGlet font: ");
                append_str(&mut s, e.as_str());
                s
            },
            LogoError::FontNotFound { font_name, variants } => {
                let mut s = string_of("Font '");
                append_str(&mut s, font_name.as_str());
                append_str(&mut s, "' not found. Tried variants: ");
                let list = debug_list(variants);
                append_str(&mut s, list.as_str());
                s
            },
            LogoError::ConvertFailed { text, font_name } => {
                let mut s = string_of("Failed to convert text '");
                append_str(&mut s, text.as_str());
                append_str(&mut s, "' using font '");
                append_str(&mut s, font_name.as_str());
                append_str(&mut s, "'");
                s
            },
            LogoError::LoadFailed { font_name, cause: _ } => {
                let mut s = string_of("Failed to load font: ");
                append_str(&mut s, font_name.as_str());
                s
            },
        }
    }
}

/// Writes a list of strings the way `Debug` writes a `Vec<String>`.
fn debug_list(items: &Vec<String>) -> (res: String)
    ensures
        res@ == debug_list_text(texts(items@)),
{
    let mut body = String::new();
    let mut i: usize = 0;
    while i < items.len()
        invariant
            i <= items@.len(),
            body@ == debug_items(texts(items@).take(i as int)),
        decreases items.len() - i,
    {
        let q = debug_quoted(items[i].as_str());
        proof {
            assert(texts(items@).take(i + 1).drop_last() =~= texts(items@).take(i as int));
        }
        if i > 0 {
            append_str(&mut body, ", ");
        } else {
            assert(texts(items@).take(0) =~= Seq::<Seq<char>>::empty());
        }
        append_str(&mut body, q.as_str());
        i = i + 1;
    }
    assert(texts(items@).take(items@.len() as int) =~= texts(items@));
    let mut out = string_of("[");
    append_str(&mut out, body.as_str());
    append_str(&mut out, "]");
    out
}


/// Calls `std::str::from_utf8`: the bytes read as text when they are
/// valid UTF-8, `None` otherwise.
#[verifier::external_body]
fn utf8_text(bytes: &[u8]) -> (res: Option<&str>)
    ensures
        res is Some <==> valid_utf8(bytes@),
        res matches Some(s) ==> s@ == decode_utf8(bytes@),
{
    std::str::from_utf8(bytes).ok()
}

/// A FIGlet font ready to render text, with the name it was loaded under.
/// It keeps the font's text, which the FIGlet parser accepts.
pub struct LogoRenderer {
    font_text: String,
    font_name: String,
}

/// The fonts built into the tool: each file name with its content.
pub struct EmbeddedFonts {
    pub files: Vec<(String, Vec<u8>)>,
}

/// The text of the embedded font table.
pub open spec fn font_table(files: Seq<(String, Vec<u8>)>) -> Seq<(Seq<char>, Seq<u8>)> {
    files.map_values(|f: (String, Vec<u8>)| (f.0@, f.1@))
}

/// The content of the first file named `name`, if any.
pub open spec fn font_file(table: Seq<(Seq<char>, Seq<u8>)>, name: Seq<char>) -> Option<Seq<u8>>
    decreases table.len(),
{
    if table.len() == 0 {
        None
    } else if table[0].0 == name {
        Some(table[0].1)
    } else {
        font_file(table.drop_first(), name)
    }
}

/// The content of the file of the first name in `names` that the table has.
pub open spec fn first_font_file(table: Seq<(Seq<char>, Seq<u8>)>, names: Seq<Seq<char>>) -> Option<Seq<u8>>
    decreases names.len(),
{
    if names.len() == 0 {
        None
    } else {
        match font_file(table, names[0]) {
            Some(d) => Some(d),
            None => first_font_file(table, names.drop_first()),
        }
    }
}

/// Whether the FIGlet parser runs without panicking on every file of the
/// table that is valid UTF-8.
pub open spec fn fonts_parse_safely(table: Seq<(Seq<char>, Seq<u8>)>) -> bool {
    forall|i: int|
        0 <= i < table.len() && valid_utf8(#[trigger] table[i].1) ==> figlet_parse_safe(
            decode_utf8(table[i].1),
        )
}

/// Whether the FIGlet parser runs without panicking on `data`, where it
/// is text at all.
pub open spec fn font_data_parses_safely(data: Seq<u8>) -> bool {
    valid_utf8(data) ==> figlet_parse_safe(decode_utf8(data))
}

proof fn lemma_font_file_from_table(table: Seq<(Seq<char>, Seq<u8>)>, name: Seq<char>)
    requires
        fonts_parse_safely(table),
    ensures
        font_file(table, name) matches Some(d) ==> font_data_parses_safely(d),
    decreases table.len(),
{
    if table.len() > 0 && table[0].0 != name {
        assert forall|i: int|
            0 <= i < table.drop_first().len() && valid_utf8(
                #[trigger] table.drop_first()[i].1,
            ) implies figlet_parse_safe(decode_utf8(table.drop_first()[i].1)) by {
            assert(table.drop_first()[i] == table[i + 1]);
        }
        lemma_font_file_from_table(table.drop_first(), name);
    } else if table.len() > 0 {
        assert(valid_utf8(table[0].1) ==> figlet_parse_safe(decode_utf8(table[0].1)));
    }
}

proof fn lemma_first_font_file_from_table(table: Seq<(Seq<char>, Seq<u8>)>, names: Seq<Seq<char>>)
    requires
        fonts_parse_safely(table),
    ensures
        first_font_file(table, names) matches Some(d) ==> font_data_parses_safely(d),
    decreases names.len(),
{
    if names.len() > 0 {
        lemma_font_file_from_table(table, names[0]);
        lemma_first_font_file_from_table(table, names.drop_first());
    }
}

/// Whether `res` is what loading a font named `name` from the bytes `data`
/// gives: an error for bytes that are not UTF-8, the parser's message for
/// text it rejects, otherwise a renderer under that name.
pub open spec fn loads_font(name: Seq<char>, data: Seq<u8>, res: Result<LogoRenderer, LogoError>) -> bool {
    if !valid_utf8(data) {
        res matches Err(LogoError::InvalidUtf8)
    } else {
        match figlet_parse_error(decode_utf8(data)) {
            Some(msg) => res matches Err(LogoError::InvalidFont(m)) && m@ == msg,
            None => res matches Ok(r) && r.font_name() == name && r.font_text() == decode_utf8(data),
        }
    }
}

impl EmbeddedFonts {
    /// The content of the font file named `name`, if there is one.
    /// Whether the FIGlet parser can run on every embedded font without
    /// panicking.
    pub fn all_parse_safely(&self) -> (res: bool)
        ensures
            res == fonts_parse_safely(font_table(self.files@)),
    {
        let mut i: usize = 0;
        while i < self.files.len()
            invariant
                i <= self.files@.len(),
                forall|j: int|
                    0 <= j < i && valid_utf8(#[trigger] font_table(self.files@)[j].1)
                        ==> figlet_parse_safe(decode_utf8(font_table(self.files@)[j].1)),
            decreases self.files.len() - i,
        {
            let data = &self.files[i].1;
            assert(font_table(self.files@)[i as int].1 == data@);
            if let Some(text) = utf8_text(data.as_slice()) {
                if !figlet_parse_is_safe(text) {
                    return false;
                }
            }
            i = i + 1;
        }
        true
    }

    pub fn get(&self, name: &str) -> (res: Option<&Vec<u8>>)
        ensures
            match res {
                Some(d) => font_file(font_table(self.files@), name@) == Some(d@),
                None => font_file(font_table(self.files@), name@) is None,
            },
    {
        let mut i: usize = 0;
        assert(font_table(self.files@).skip(0) =~= font_table(self.files@));
        while i < self.files.len()
            invariant
                i <= self.files@.len(),
                font_file(font_table(self.files@), name@) == font_file(
                    font_table(self.files@).skip(i as int),
                    name@,
                ),
            decreases self.files.len() - i,
        {
            let ghost rest = font_table(self.files@).skip(i as int);
            assert(rest.drop_first() =~= font_table(self.files@).skip(i + 1));
            if str_eq(self.files[i].0.as_str(), name) {
                return Some(&self.files[i].1);
            }
            i = i + 1;
        }
        None
    }
}

impl LogoRenderer {
    /// The name the font was loaded under.
    pub closed spec fn font_name(&self) -> Seq<char> {
        self.font_name@
    }

    /// The text of the FIGlet font.
    pub closed spec fn font_text(&self) -> Seq<char> {
        self.font_text@
    }

    /// The parser accepts the font's text, and runs on it without panicking.
    #[verifier::type_invariant]
    spec fn parsed_font(&self) -> bool {
        figlet_parse_safe(self.font_text@) && figlet_parse_error(self.font_text@) is None
    }

    /// Loads a font from the bytes of a FIGlet font file.
    pub fn from_font_data(font_name: &str, font_data: &[u8]) -> (res: Result<LogoRenderer, LogoError>)
        requires
            font_data_parses_safely(font_data@),
        ensures
            loads_font(font_name@, font_data@, res),
    {
        let content = match utf8_text(font_data) {
            Some(c) => c,
            None => return Err(LogoError::InvalidUtf8),
        };
        match parse_figlet(content) {
            Ok(()) => Ok(LogoRenderer { font_text: string_of(content), font_name: string_of(font_name) }),
            Err(e) => Err(LogoError::InvalidFont(e)),
        }
    }

    /// Loads the embedded font that goes by `font_name` or one of its
    /// variants, trying the variants in order.
    pub fn from_embedded_font(font_name: &str, fonts: &EmbeddedFonts) -> (res: Result<LogoRenderer, LogoError>)
        requires
            fonts_parse_safely(font_table(fonts.files@)),
        ensures
            match first_font_file(font_table(fonts.files@), font_name_variants(font_name@)) {
                Some(data) => loads_font(font_name@, data, res),
                None => res matches Err(LogoError::FontNotFound { font_name: n, variants })
                    && n@ == font_name@ && texts(variants@) == font_name_variants(font_name@),
            },
    {
        let variants = generate_font_name_variants(font_name);
        let ghost names = font_name_variants(font_name@);
        let mut i: usize = 0;
        assert(names.skip(0) =~= names);
        while i < variants.len()
            invariant
                fonts_parse_safely(font_table(fonts.files@)),
                names == font_name_variants(font_name@),
                texts(variants@) == names,
                i <= variants@.len(),
                first_font_file(font_table(fonts.files@), names) == first_font_file(
                    font_table(fonts.files@),
                    names.skip(i as int),
                ),
            decreases variants.len() - i,
        {
            assert(names.skip(i as int)[0] == variants@[i as int]@);
            assert(names.skip(i as int).drop_first() =~= names.skip(i + 1));
            if let Some(data) = fonts.get(variants[i].as_str()) {
                assert(first_font_file(font_table(fonts.files@), names.skip(i as int)) == Some(
                    data@,
                ));
                proof {
                    lemma_first_font_file_from_table(font_table(fonts.files@), names);
                }
                return Self::from_font_data(font_name, data.as_slice());
            }
            i = i + 1;
        }
        Err(LogoError::FontNotFound { font_name: string_of(font_name), variants })
    }

    /// Renders `text` in this font; an error when the font renders nothing,
    /// which is always the case for an empty text.
    pub fn render(&self, text: &str) -> (res: Result<String, LogoError>)
        ensures
            converts(figlet_rendered(self.font_text(), text@), text@, self.font_name(), res),
            text@.len() == 0 ==> res is Err,
    {
        proof {
            use_type_invariant(self);
        }
        let rendered = figlet_render(self.font_text.as_str(), text);
        conversion_result(rendered, text, self.font_name.as_str())
    }
}

/// Whether `res` is what rendering `text` in the font `font_name` gives,
/// where the FIGlet renderer gave `rendered`: the figure, or an error
/// naming the text and the font when it rendered nothing.
pub open spec fn converts(
    rendered: Option<Seq<char>>,
    text: Seq<char>,
    font_name: Seq<char>,
    res: Result<String, LogoError>,
) -> bool {
    match rendered {
        Some(r) => res matches Ok(s) && s@ == r,
        None => res matches Err(LogoError::ConvertFailed { text: t, font_name: f }) && t@ == text
            && f@ == font_name,
    }
}

/// Turns what the FIGlet renderer gave for `text` in the font `font_name`
/// into the result of rendering: the figure, or an error that names the
/// text and the font.
pub fn conversion_result(rendered: Option<String>, text: &str, font_name: &str) -> (res: Result<String, LogoError>)
    ensures
        converts(
            match rendered {
                Some(s) => Some(s@),
                None => None,
            },
            text@,
            font_name@,
            res,
        ),
{
    match rendered {
        Some(s) => Ok(s),
        None => Err(LogoError::ConvertFailed { text: string_of(text), font_name: string_of(font_name) }),
    }
}

/// Renders `text` in the embedded font `font_name`; when the font cannot be
/// loaded the error says so and names the font.
pub fn render_logo(font_name: &str, text: &str, fonts: &EmbeddedFonts) -> (res: Result<String, LogoError>)
    requires
        fonts_parse_safely(font_table(fonts.files@)),
    ensures
        match first_font_file(font_table(fonts.files@), font_name_variants(font_name@)) {
            Some(data) if valid_utf8(data) && figlet_parse_error(decode_utf8(data)) is None => {
                &&& converts(figlet_rendered(decode_utf8(data), text@), text@, font_name@, res)
                &&& text@.len() == 0 ==> res is Err
            },
            _ => res matches Err(LogoError::LoadFailed { font_name: n, cause: _ }) && n@
                == font_name@,
        },
{
    match LogoRenderer::from_embedded_font(font_name, fonts) {
        Ok(renderer) => renderer.render(text),
        Err(e) => Err(LogoError::LoadFailed { font_name: string_of(font_name), cause: Box::new(e) }),
    }
}

/// The lines of a rendered logo as they are printed: each line in bold, in
/// the palette color for its position.
pub fn logo_lines(rendered_logo: &str) -> (res: Vec<String>)
    ensures
        res@.len() == lines_spec(rendered_logo@).len(),
        forall|i: int|
            0 <= i < res@.len() ==> #[trigger] res@[i]@ == logo_line_text(lines_spec(rendered_logo@)[i], i),
{
    let lines = split_lines(rendered_logo);
    let ghost ls = lines_spec(rendered_logo@);
    assert(texts(lines@) == ls);
    let mut out: Vec<String> = Vec::new();
    let mut i: usize = 0;
    while i < lines.len()
        invariant
            texts(lines@) == ls,
            i <= lines@.len(),
            out@.len() == i,
            forall|k: int|
                0 <= k < i ==> #[trigger] out@[k]@ == logo_line_text(ls[k], k),
        decreases lines.len() - i,
    {
        assert(ls[i as int] == lines@[i as int]@);
        let line = paint_bold_truecolor(lines[i].as_str(), 255, 255, 255);
        out.push(line);
        i = i + 1;
    }
    out
}


/// The line that start-up prints to standard error when the logo cannot
/// be rendered for the reason `message`.
pub open spec fn logo_error_line(message: Seq<char>) -> Seq<char> {
    "Error printing logo: "@ + message
}

/// What start-up prints for a logo rendering result: the logo's lines for
/// standard output, or one line for standard error that says why there is
/// no logo.
pub fn banner_from(rendered: Result<String, LogoError>) -> (res: Result<Vec<String>, String>)
    ensures
        match rendered {
            Ok(r) => res matches Ok(lines) && texts(lines@) == printed_logo(r@),
            Err(e) => res matches Err(l) && l@ == logo_error_line(e.message_spec()),
        },
{
    match rendered {
        Ok(r) => {
            let lines = logo_lines(r.as_str());
            assert(printed_logo(r@) =~= texts(lines@));
            Ok(lines)
        },
        Err(e) => {
            let mut line = string_of("Error printing logo: ");
            let m = e.message();
            append_str(&mut line, m.as_str());
            Err(line)
        },
    }
}

/// What start-up prints for the logo: its lines for standard output, or,
/// when it cannot be rendered, one line for standard error that says why.
pub fn logo_banner(font_name: &str, text: &str, fonts: &EmbeddedFonts) -> (res: Result<Vec<String>, String>)
    requires
        fonts_parse_safely(font_table(fonts.files@)),
    ensures
        match first_font_file(font_table(fonts.files@), font_name_variants(font_name@)) {
            Some(data) if valid_utf8(data) && figlet_parse_error(decode_utf8(data)) is None => {
                match figlet_rendered(decode_utf8(data), text@) {
                    Some(r) => res matches Ok(lines) && texts(lines@) == printed_logo(r),
                    None => res matches Err(l) && l@ == "Error printing logo: Failed to convert text '"@
                        + text@ + "' using font '"@ + font_name@ + "'"@,
                }
            },
            _ => res matches Err(l) && l@ == "Error printing logo: Failed to load font: "@
                + font_name@,
        },
        text@.len() == 0 ==> res is Err,
{
    let rendered = render_logo(font_name, text, fonts);
    let ghost given = rendered;
    let res = banner_from(rendered);
    let ghost out = res;
    proof {
        reveal_strlit("Error printing logo: ");
        reveal_strlit("Failed to load font: ");
        reveal_strlit("Error printing logo: Failed to load font: ");
        reveal_strlit("Failed to convert text '");
        reveal_strlit("Error printing logo: Failed to convert text '");
        assert("Error printing logo: "@ + "Failed to load font: "@
            =~= "Error printing logo: Failed to load font: "@);
        assert("Error printing logo: "@ + "Failed to convert text '"@
            =~= "Error printing logo: Failed to convert text '"@);
        if let Err(e) = given {
            if let Err(l) = out {
                assert(l@ =~= "Error printing logo: "@ + e.message_spec());
            }
        }
    }
    res
}

} // verus!

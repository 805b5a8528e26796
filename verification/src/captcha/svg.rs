//! The challenge image: a vector image that shows the answer among noise
//! lines, each character with a colour, a height and a rotation of its
//! own.

use vstd::prelude::*;

use vstd::utf8::{decode_utf8, valid_utf8};

use crate::codec::{b64_decoded, b64_encoded, decode_b64, encode_b64};
use crate::random::random_in;
use crate::text::{
    chars_of, decimal, has_prefix, lossy_text, push_decimal, signed_decimal, slice_chars,
    starts_with, string_from_utf8_lossy, string_of, utf8,
};
use crate::types::CaptchaDifficulty;

verus! {

/// Width of the image, in pixels.
pub const WIDTH: i32 = 200;

/// Height of the image, in pixels.
pub const HEIGHT: i32 = 80;

/// The beginning of the image: its size.
pub const SVG_OPEN: &'static str =
    "<svg xmlns=\"http://www.w3.org/2000/svg\" width=\"200\" height=\"80\">";

/// The dark background of the image.
pub const BACKGROUND: &'static str = "<rect width=\"100%\" height=\"100%\" fill=\"#1a1a2e\"/>";

/// Begins a noise line, before where it starts, from the left.
pub const LINE_X1: &'static str = "<line x1=\"";

/// Stands before where a noise line starts, from the top.
pub const LINE_Y1: &'static str = "\" y1=\"";

/// Stands before where a noise line ends, from the left.
pub const LINE_X2: &'static str = "\" x2=\"";

/// Stands before where a noise line ends, from the top.
pub const LINE_Y2: &'static str = "\" y2=\"";

/// Stands before the opacity of a noise line, in hundredths.
pub const LINE_STROKE: &'static str = "\" stroke=\"rgba(255,255,255,0.";

/// Ends a noise line.
pub const LINE_CLOSE: &'static str = ")\" stroke-width=\"1\"/>";

/// Begins a character, before its place from the left.
pub const TEXT_X: &'static str = "<text x=\"";

/// Stands before the place of a character from the top.
pub const TEXT_Y: &'static str = "\" y=\"";

/// The font of a character; stands before its colour.
pub const TEXT_FILL: &'static str =
    "\" font-family=\"monospace\" font-size=\"32\" font-weight=\"bold\" fill=\"rgb(";

/// Stands before the rotation of a character.
pub const TEXT_ROTATE: &'static str = ")\" transform=\"rotate(";

/// Stands before the character itself.
pub const TEXT_BODY: &'static str = ")\">";

/// Ends a character.
pub const TEXT_CLOSE: &'static str = "</text>";

/// The end of the image.
pub const SVG_CLOSE: &'static str = "</svg>";

/// One noise line.
#[derive(Debug, Clone, Copy, PartialEq, Eq, Structural)]
pub struct NoiseLine {
    pub x1: i32,
    pub y1: i32,
    pub x2: i32,
    pub y2: i32,
    /// Opacity of the stroke, in hundredths.
    pub opacity: i32,
}

/// How one character of the answer is drawn.
#[derive(Debug, Clone, Copy, PartialEq, Eq, Structural)]
pub struct GlyphStyle {
    /// The base line of the character.
    pub y: i32,
    /// Rotation about the character's position, in degrees.
    pub rotation: i32,
    pub red: i32,
    pub green: i32,
    pub blue: i32,
}

impl NoiseLine {
    /// Whether the line lies within the image and is faint enough.
    pub open spec fn in_range(self) -> bool {
        &&& 0 <= self.x1 < WIDTH
        &&& 0 <= self.x2 < WIDTH
        &&& 0 <= self.y1 < HEIGHT
        &&& 0 <= self.y2 < HEIGHT
        &&& 20 <= self.opacity < 50
    }
}

impl GlyphStyle {
    /// Whether the character stands near the middle line, is turned by
    /// at most 15 degrees, and is bright.
    pub open spec fn in_range(self) -> bool {
        &&& 40 <= self.y < 60
        &&& -15 <= self.rotation < 15
        &&& 150 <= self.red < 255
        &&& 150 <= self.green < 255
        &&& 150 <= self.blue < 255
    }
}

/// The number of noise lines at the given difficulty.
pub open spec fn noise_lines(difficulty: CaptchaDifficulty) -> nat {
    match difficulty {
        CaptchaDifficulty::Easy => 5,
        CaptchaDifficulty::Medium => 15,
        CaptchaDifficulty::Hard => 30,
        CaptchaDifficulty::Extreme => 50,
    }
}

/// The number of noise lines at the given difficulty.
pub fn noise_count(difficulty: CaptchaDifficulty) -> (n: usize)
    ensures
        n == noise_lines(difficulty),
{
    match difficulty {
        CaptchaDifficulty::Easy => 5,
        CaptchaDifficulty::Medium => 15,
        CaptchaDifficulty::Hard => 30,
        CaptchaDifficulty::Extreme => 50,
    }
}

/// The horizontal position of character `i` of `n`, in tenths of a
/// pixel: the characters are spread evenly over the width, the first at
/// eight tenths of a step from the left.
pub open spec fn glyph_x_tenths(i: nat, n: nat) -> nat {
    (2000 * (10 * i + 8)) / (10 * (n + 1))
}

/// A number of tenths, written with one decimal place.
pub open spec fn tenths_text(t: nat) -> Seq<char> {
    decimal(t / 10) + seq!['.'] + decimal(t % 10)
}

/// The element that draws one noise line.
pub open spec fn line_text(line: NoiseLine) -> Seq<char> {
    LINE_X1@ + signed_decimal(line.x1 as int) + LINE_Y1@ + signed_decimal(line.y1 as int) + LINE_X2@
        + signed_decimal(line.x2 as int) + LINE_Y2@ + signed_decimal(line.y2 as int) + LINE_STROKE@
        + signed_decimal(line.opacity as int) + LINE_CLOSE@
}

/// The elements that draw the noise lines, in order.
pub open spec fn lines_text(lines: Seq<NoiseLine>) -> Seq<char>
    decreases lines.len(),
{
    if lines.len() == 0 {
        Seq::empty()
    } else {
        lines_text(lines.drop_last()) + line_text(lines.last())
    }
}

/// Where a character stands: the attributes `x` and `y`.
pub open spec fn glyph_place(x: Seq<char>, y: Seq<char>) -> Seq<char> {
    TEXT_X@ + x + TEXT_Y@ + y
}

/// The font and the colour of a character.
pub open spec fn glyph_fill(style: GlyphStyle) -> Seq<char> {
    TEXT_FILL@ + signed_decimal(style.red as int) + seq![','] + signed_decimal(style.green as int)
        + seq![','] + signed_decimal(style.blue as int)
}

/// The rotation of a character about its own position.
pub open spec fn glyph_turn(style: GlyphStyle, x: Seq<char>, y: Seq<char>) -> Seq<char> {
    TEXT_ROTATE@ + signed_decimal(style.rotation as int) + seq![' '] + x + seq![' '] + y
}

/// The character itself, and the end of its element.
pub open spec fn glyph_body(c: char) -> Seq<char> {
    TEXT_BODY@ + seq![c] + TEXT_CLOSE@
}

/// The element that draws character `c`, the `i`-th of `n`.
pub open spec fn glyph_text(c: char, style: GlyphStyle, i: nat, n: nat) -> Seq<char> {
    let x = tenths_text(glyph_x_tenths(i, n));
    let y = signed_decimal(style.y as int);
    glyph_place(x, y) + glyph_fill(style) + glyph_turn(style, x, y) + glyph_body(c)
}

/// The elements that draw the first `k` characters of `text`.
pub open spec fn glyphs_text(text: Seq<char>, styles: Seq<GlyphStyle>, k: nat) -> Seq<char>
    decreases k,
{
    if k == 0 {
        Seq::empty()
    } else {
        glyphs_text(text, styles, (k - 1) as nat) + glyph_text(
            text[k - 1],
            styles[k - 1],
            (k - 1) as nat,
            text.len(),
        )
    }
}

/// The image that shows `text` with the given noise lines and styles.
pub open spec fn svg_text(text: Seq<char>, lines: Seq<NoiseLine>, styles: Seq<GlyphStyle>) -> Seq<
    char,
> {
    SVG_OPEN@ + BACKGROUND@ + lines_text(lines) + glyphs_text(text, styles, text.len()) + SVG_CLOSE@
}

/// Appends a whole number in decimal.
fn append_number(out: &mut String, n: i32)
    ensures
        final(out)@ == old(out)@ + signed_decimal(n as int),
{
    let mut digits: Vec<char> = Vec::new();
    if n < 0 {
        digits.push('-');
        push_decimal(&mut digits, (-(n as i64)) as u64);
        proof {
            assert(digits@ =~= signed_decimal(n as int));
        }
    } else {
        push_decimal(&mut digits, n as u64);
        proof {
            assert(digits@ =~= signed_decimal(n as int));
        }
    }
    let s = string_of(digits.as_slice());
    out.append(s.as_str());
}

/// Appends a number of tenths with one decimal place.
fn append_tenths(out: &mut String, t: u64)
    ensures
        final(out)@ == old(out)@ + tenths_text(t as nat),
{
    let mut digits: Vec<char> = Vec::new();
    push_decimal(&mut digits, t / 10);
    digits.push('.');
    push_decimal(&mut digits, t % 10);
    proof {
        assert(digits@ =~= tenths_text(t as nat));
    }
    let s = string_of(digits.as_slice());
    out.append(s.as_str());
}

/// Appends the element that draws one noise line.
fn append_line(out: &mut String, line: &NoiseLine)
    ensures
        final(out)@ == old(out)@ + line_text(*line),
{
    out.append(LINE_X1);
    append_number(out, line.x1);
    out.append(LINE_Y1);
    append_number(out, line.y1);
    out.append(LINE_X2);
    append_number(out, line.x2);
    out.append(LINE_Y2);
    append_number(out, line.y2);
    out.append(LINE_STROKE);
    append_number(out, line.opacity);
    out.append(LINE_CLOSE);
    proof {
        assert(final(out)@ =~= old(out)@ + line_text(*line));
    }
}

/// Appends the place of a character.
fn append_place(out: &mut String, x: u64, y: i32)
    ensures
        final(out)@ == old(out)@ + glyph_place(tenths_text(x as nat), signed_decimal(y as int)),
{
    out.append(TEXT_X);
    append_tenths(out, x);
    out.append(TEXT_Y);
    append_number(out, y);
    proof {
        assert(final(out)@ =~= old(out)@ + glyph_place(
            tenths_text(x as nat),
            signed_decimal(y as int),
        ));
    }
}

/// Appends the font and the colour of a character.
fn append_fill(out: &mut String, style: &GlyphStyle)
    ensures
        final(out)@ == old(out)@ + glyph_fill(*style),
{
    proof {
        reveal_strlit(",");
        assert(","@ =~= seq![',']);
    }
    out.append(TEXT_FILL);
    append_number(out, style.red);
    out.append(",");
    append_number(out, style.green);
    out.append(",");
    append_number(out, style.blue);
    proof {
        assert(final(out)@ =~= old(out)@ + glyph_fill(*style));
    }
}

/// Appends the rotation of a character.
fn append_turn(out: &mut String, style: &GlyphStyle, x: u64)
    ensures
        final(out)@ == old(out)@ + glyph_turn(
            *style,
            tenths_text(x as nat),
            signed_decimal(style.y as int),
        ),
{
    proof {
        reveal_strlit(" ");
        assert(" "@ =~= seq![' ']);
    }
    out.append(TEXT_ROTATE);
    append_number(out, style.rotation);
    out.append(" ");
    append_tenths(out, x);
    out.append(" ");
    append_number(out, style.y);
    proof {
        assert(final(out)@ =~= old(out)@ + glyph_turn(
            *style,
            tenths_text(x as nat),
            signed_decimal(style.y as int),
        ));
    }
}

/// Appends a character and the end of its element.
fn append_body(out: &mut String, c: char)
    ensures
        final(out)@ == old(out)@ + glyph_body(c),
{
    let mut one: Vec<char> = Vec::new();
    one.push(c);
    let body = string_of(one.as_slice());
    out.append(TEXT_BODY);
    out.append(body.as_str());
    out.append(TEXT_CLOSE);
    proof {
        assert(one@ =~= seq![c]);
        assert(final(out)@ =~= old(out)@ + glyph_body(c));
    }
}

/// Appends the element that draws one character.
fn append_glyph(out: &mut String, c: char, style: &GlyphStyle, i: usize, n: usize)
    requires
        i < n,
    ensures
        final(out)@ == old(out)@ + glyph_text(c, *style, i as nat, n as nat),
{
    let wide: u128 = (2000 * (10 * (i as u128) + 8)) / (10 * (n as u128 + 1));
    proof {
        assert(wide < 2000) by (nonlinear_arith)
            requires
                0 <= i < n,
                wide == (2000 * (10 * i + 8)) / (10 * (n + 1)),
        ;
    }
    let x: u64 = wide as u64;
    append_place(out, x, style.y);
    append_fill(out, style);
    append_turn(out, style, x);
    append_body(out, c);
    proof {
        assert(final(out)@ =~= old(out)@ + glyph_text(c, *style, i as nat, n as nat));
    }
}

/// Draws the image that shows `text` with the given noise lines and one
/// style for each character.
pub fn render_svg(text: &str, lines: &Vec<NoiseLine>, styles: &Vec<GlyphStyle>) -> (svg: String)
    requires
        text@.len() == styles@.len(),
    ensures
        svg@ == svg_text(text@, lines@, styles@),
{
    let chars = chars_of(text);
    let n = chars.len();
    let mut svg = String::from_str(SVG_OPEN);
    svg.append(BACKGROUND);
    let mut i: usize = 0;
    proof {
        assert(lines@.take(0) =~= Seq::<NoiseLine>::empty());
    }
    while i < lines.len()
        invariant
            i <= lines@.len(),
            svg@ == SVG_OPEN@ + BACKGROUND@ + lines_text(lines@.take(i as int)),
        decreases lines@.len() - i,
    {
        append_line(&mut svg, &lines[i]);
        proof {
            assert(lines@.take(i + 1).drop_last() =~= lines@.take(i as int));
            assert(svg@ =~= SVG_OPEN@ + BACKGROUND@ + lines_text(lines@.take(i + 1)));
        }
        i += 1;
    }
    proof {
        assert(lines@.take(i as int) =~= lines@);
    }
    let mut k: usize = 0;
    while k < n
        invariant
            k <= n,
            n == chars@.len(),
            chars@ == text@,
            n == styles@.len(),
            svg@ == SVG_OPEN@ + BACKGROUND@ + lines_text(lines@) + glyphs_text(
                text@,
                styles@,
                k as nat,
            ),
        decreases n - k,
    {
        append_glyph(&mut svg, chars[k], &styles[k], k, n);
        proof {
            assert(svg@ =~= SVG_OPEN@ + BACKGROUND@ + lines_text(lines@) + glyphs_text(
                text@,
                styles@,
                (k + 1) as nat,
            ));
        }
        k += 1;
    }
    svg.append(SVG_CLOSE);
    svg
}

/// Draws one noise line at random.
pub fn draw_line() -> (line: NoiseLine)
    ensures
        line.in_range(),
{
    let x1 = random_in(0, WIDTH);
    let y1 = random_in(0, HEIGHT);
    let x2 = random_in(0, WIDTH);
    let y2 = random_in(0, HEIGHT);
    let opacity = random_in(20, 50);
    NoiseLine { x1, y1, x2, y2, opacity }
}

/// Draws the style of one character at random.
pub fn draw_style() -> (style: GlyphStyle)
    ensures
        style.in_range(),
{
    let y = 50 + random_in(-10, 10);
    let rotation = random_in(-15, 15);
    let red = random_in(150, 255);
    let green = random_in(150, 255);
    let blue = random_in(150, 255);
    GlyphStyle { y, rotation, red, green, blue }
}

/// Whether `svg` is an image of `text` at the given difficulty: it shows
/// the text with as many noise lines as the difficulty asks for, all of
/// them and all styles within their ranges.
pub open spec fn is_image_of(svg: Seq<char>, text: Seq<char>, difficulty: CaptchaDifficulty) -> bool {
    exists|lines: Seq<NoiseLine>, styles: Seq<GlyphStyle>|
        {
            &&& lines.len() == noise_lines(difficulty)
            &&& styles.len() == text.len()
            &&& forall|i: int| 0 <= i < lines.len() ==> (#[trigger] lines[i]).in_range()
            &&& forall|i: int| 0 <= i < styles.len() ==> (#[trigger] styles[i]).in_range()
            &&& svg == #[trigger] svg_text(text, lines, styles)
        }
}

/// Draws an image of `text` at the given difficulty, with noise and
/// styles chosen at random.
pub fn random_svg(text: &str, difficulty: CaptchaDifficulty) -> (svg: String)
    ensures
        is_image_of(svg@, text@, difficulty),
{
    let count = noise_count(difficulty);
    let mut lines: Vec<NoiseLine> = Vec::new();
    while lines.len() < count
        invariant
            lines@.len() <= count,
            forall|i: int| 0 <= i < lines@.len() ==> (#[trigger] lines@[i]).in_range(),
        decreases count - lines@.len(),
    {
        lines.push(draw_line());
    }
    let n = text.unicode_len();
    let mut styles: Vec<GlyphStyle> = Vec::new();
    while styles.len() < n
        invariant
            styles@.len() <= n,
            forall|i: int| 0 <= i < styles@.len() ==> (#[trigger] styles@[i]).in_range(),
        decreases n - styles@.len(),
    {
        styles.push(draw_style());
    }
    render_svg(text, &lines, &styles)
}

/// What begins the data URL of an image.
pub const DATA_URL_PREFIX: &'static str = "data:image/svg+xml;base64,";

/// The data URL that carries the image `svg`.
pub open spec fn data_url_of(svg: Seq<char>) -> Seq<char> {
    DATA_URL_PREFIX@ + b64_encoded(utf8(svg))
}

/// Begins the reference to an image that cannot be embedded.
pub const IMG_OPEN: &'static str = "<img src=\"";

/// Ends the reference to an image that cannot be embedded.
pub const IMG_CLOSE: &'static str = "\" alt=\"CAPTCHA\">";

/// The reference to the image at `address`.
pub open spec fn image_reference(address: Seq<char>) -> Seq<char> {
    IMG_OPEN@ + address + IMG_CLOSE@
}

/// A challenge's image as it is put into the page: the image itself
/// where its data URL can be read, a reference to the data URL otherwise.
pub open spec fn embedded_image(image_data: Seq<char>) -> Seq<char> {
    if has_prefix(image_data, DATA_URL_PREFIX@) {
        match b64_decoded(image_data.skip(DATA_URL_PREFIX@.len() as int)) {
            Some(bytes) => read_lossy(bytes),
            None => image_reference(image_data),
        }
    } else {
        image_reference(image_data)
    }
}

/// The text that `bytes` encode: read as UTF-8 where they are well
/// formed, and with replacement characters otherwise.
pub open spec fn read_lossy(bytes: Seq<u8>) -> Seq<char> {
    if valid_utf8(bytes) {
        decode_utf8(bytes)
    } else {
        lossy_text(bytes)
    }
}

/// The reference to the image at `address`.
pub fn refer_to_image(address: &str) -> (r: String)
    ensures
        r@ == image_reference(address@),
{
    let mut r = String::from_str(IMG_OPEN);
    r.append(address);
    r.append(IMG_CLOSE);
    r
}

/// Puts a challenge's image into the page.
pub fn embed_image(image_data: &str) -> (r: String)
    ensures
        r@ == embedded_image(image_data@),
{
    let chars = chars_of(image_data);
    let prefix = chars_of(DATA_URL_PREFIX);
    if starts_with(chars.as_slice(), prefix.as_slice()) {
        let rest = slice_chars(chars.as_slice(), prefix.len(), chars.len());
        let encoded = string_of(rest.as_slice());
        proof {
            assert(rest@ =~= image_data@.skip(DATA_URL_PREFIX@.len() as int));
        }
        match decode_b64(encoded.as_str()) {
            Some(bytes) => string_from_utf8_lossy(bytes.as_slice()),
            None => refer_to_image(image_data),
        }
    } else {
        refer_to_image(image_data)
    }
}

/// Wraps the image `svg` in a data URL, from which the image can be
/// read again.
pub fn data_url(svg: &str) -> (url: String)
    ensures
        url@ == data_url_of(svg@),
        embedded_image(url@) == svg@,
{
    let encoded = encode_b64(svg.as_bytes());
    let mut url = String::from_str(DATA_URL_PREFIX);
    url.append(encoded.as_str());
    proof {
        vstd::utf8::encode_utf8_valid_utf8(svg@);
        vstd::utf8::encode_utf8_decode_utf8(svg@);
        assert(url@.take(DATA_URL_PREFIX@.len() as int) =~= DATA_URL_PREFIX@);
        assert(url@.skip(DATA_URL_PREFIX@.len() as int) =~= encoded@);
    }
    url
}

} // verus!

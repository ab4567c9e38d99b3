//! QR codes on labels.

use vstd::prelude::*;

use crate::bitmap::{cell, lemma_cell, LabelBitmap, Raster};
use crate::document::{level_name, QrErrorCorrection, QrSource};
use crate::error::{RenderError, RenderFault};
use crate::message::{decimal, push_decimal};

verus! {

/// The symbol of `content` at an error correction level: the modules on a side
/// and, row by row, which modules are dark; or why there is none.
pub uninterp spec fn encoded_symbol(content: Seq<char>, level: QrErrorCorrection) -> Result<
    (nat, Seq<bool>),
    Seq<char>,
>;

/// The version of the symbol that `content` is put into at an error correction
/// level, or `None` where no symbol holds it.
pub uninterp spec fn picked_version(content: Seq<char>, level: QrErrorCorrection) -> Option<i16>;

/// Calls `qrcode::bits::encode_auto` on the bytes of `content`, and hands out the
/// version that it picked. The result depends on nothing but the arguments.
#[verifier::external_body]
fn pick_version(content: &str, level: QrErrorCorrection) -> (version: Option<i16>)
    ensures
        version == picked_version(content@, level),
        version matches Some(v) ==> 1 <= v <= 40,
{
    let level = match level {
        QrErrorCorrection::Low => qrcode::EcLevel::L,
        QrErrorCorrection::Medium => qrcode::EcLevel::M,
        QrErrorCorrection::Quartile => qrcode::EcLevel::Q,
        QrErrorCorrection::High => qrcode::EcLevel::H,
    };
    match qrcode::bits::encode_auto(content.as_bytes(), level).map(|bits| bits.version()) {
        Ok(qrcode::Version::Normal(version)) => Some(version),
        Ok(qrcode::Version::Micro(version)) => Some(version),
        Err(_) => None,
    }
}

/// Largest version whose mask scores fit into 16 bits, whatever the content.
///
/// To pick a mask, `qrcode` sums in 16 bits: for each row and column the length
/// less two of every run of five or more modules of one color, and 40 for every
/// `#.###.#` with four light modules, or none, on a side; three for every block
/// of two by two modules of one color; and at most 100 for the balance of colors.
/// From the second kind it takes 720 off.
///
/// Let a row of `w` modules hold `k` such patterns.
/// - A pattern starts at least 4 modules behind the last one and, with one between
///   them, at least 15 behind. So `k` is at most 9 for `w` = 69.
/// - Its five inner modules lie in runs of one or three, and it shares at most one
///   of them with the next. So the runs score at most `w - 2 - 4k`.
/// - The color changes four times in it, and only every other one shares two
///   changes with the next. So at least `3k` blocks below the row are not of one
///   color.
///
/// With the blocks below it, a row scores at most
/// `w - 2 - 4k + 40k + 3 (w - 1 - 3k)`, and a column without blocks at most
/// `w - 2 - 4k + 40k`. In version 13, where `w` is 69, that is at most 514 for each
/// row and 391 for each column: 69 times 905 less 620, which is 61825.
pub const MAX_SCORED_VERSION: i16 = 13;

/// Whether the scores by which a mask is picked for the symbol of `content` fit
/// into 16 bits. Where no symbol holds it, none is scored.
pub open spec fn mask_scores_fit(content: Seq<char>, level: QrErrorCorrection) -> bool {
    match picked_version(content, level) {
        Some(version) => version <= MAX_SCORED_VERSION,
        None => true,
    }
}

/// Tells whether the mask scores of a content fit.
pub fn content_fits(content: &str, level: QrErrorCorrection) -> (fits: bool)
    ensures
        fits == mask_scores_fit(content@, level),
{
    match pick_version(content, level) {
        Some(version) => version <= MAX_SCORED_VERSION,
        None => true,
    }
}

/// Calls `qrcode::QrCode::with_error_correction_level` on the bytes of
/// `content`, and hands out the width, the colors and the text of the error. The
/// result depends on nothing but the arguments. A symbol is square, its side
/// follows from the version that is picked, and there is one wherever a version
/// is.
#[verifier::external_body]
fn encode_content(content: &str, level: QrErrorCorrection) -> (r: Result<
    (usize, Vec<bool>),
    String,
>)
    requires
        mask_scores_fit(content@, level),
    ensures
        match r {
            Ok((width, modules)) => {
                &&& encoded_symbol(content@, level) == Ok::<(nat, Seq<bool>), Seq<char>>(
                    (width as nat, modules@),
                )
                &&& picked_version(content@, level) is Some
                &&& width == picked_version(content@, level)->0 * 4 + 17
                &&& 21 <= width <= 177
                &&& modules@.len() == width * width
            },
            Err(text) => {
                &&& encoded_symbol(content@, level) == Err::<(nat, Seq<bool>), Seq<char>>(text@)
                &&& picked_version(content@, level) is None
            },
        },
{
    let level = match level {
        QrErrorCorrection::Low => qrcode::EcLevel::L,
        QrErrorCorrection::Medium => qrcode::EcLevel::M,
        QrErrorCorrection::Quartile => qrcode::EcLevel::Q,
        QrErrorCorrection::High => qrcode::EcLevel::H,
    };
    match qrcode::QrCode::with_error_correction_level(content.as_bytes(), level) {
        Ok(code) => Ok((code.width(), code.into_colors().into_iter().map(|c| c == qrcode::Color::Dark).collect())),
        Err(error) => Err(error.to_string()),
    }
}

/// The bytes that a base64 text stands for, or what is wrong with it.
pub uninterp spec fn base64_bytes(text: Seq<char>) -> Result<Seq<u8>, Seq<char>>;

/// Calls `decode` of `base64::engine::general_purpose::STANDARD`, and hands out
/// the text of its error. The result depends on nothing but the argument.
#[verifier::external_body]
fn decode_base64(text: &str) -> (r: Result<Vec<u8>, String>)
    ensures
        match r {
            Ok(bytes) => base64_bytes(text@) == Ok::<Seq<u8>, Seq<char>>(bytes@),
            Err(message) => base64_bytes(text@) == Err::<Seq<u8>, Seq<char>>(message@),
        },
{
    let engine = base64::engine::general_purpose::STANDARD;
    base64::Engine::decode(&engine, text).map_err(|error| error.to_string())
}

/// A QR code that was made from codewords.
#[verifier::external_type_specification]
#[verifier::external_body]
pub struct ExQrCode(qrcodegen::QrCode);

/// The modules of a code by column and row, `true` for the dark ones.
pub uninterp spec fn code_modules(code: qrcodegen::QrCode) -> Map<(int, int), bool>;

/// The bits of data that a symbol of a version holds at an error correction
/// level.
pub uninterp spec fn capacity_bits(version: u8, level: QrErrorCorrection) -> nat;

/// The modules of the symbol with the given version, level, data codewords and
/// mask, by column and row.
pub uninterp spec fn codeword_modules(
    version: u8,
    level: QrErrorCorrection,
    codewords: Seq<u8>,
    mask: u8,
) -> Map<(int, int), bool>;

/// The modules on a side of a symbol of a version.
pub open spec fn symbol_side(version: u8) -> int {
    version * 4 + 17
}

/// The places of a square of `side` columns and rows.
pub open spec fn square(side: int) -> Set<(int, int)> {
    Set::new(|p: (int, int)| 0 <= p.0 < side && 0 <= p.1 < side)
}

/// Calls `qrcodegen::QrCode::encode_segments_advanced` for one version with
/// more bits than any version holds; the error it returns tells the capacity
/// that was exceeded. The result depends on nothing but the arguments.
#[verifier::external_body]
fn data_capacity_bits(version: u8, level: QrErrorCorrection) -> (bits: usize)
    requires
        1 <= version <= 40,
    ensures
        bits == capacity_bits(version, level),
{
    let version = qrcodegen::Version::new(version);
    let level = match level {
        QrErrorCorrection::Low => qrcodegen::QrCodeEcc::Low,
        QrErrorCorrection::Medium => qrcodegen::QrCodeEcc::Medium,
        QrErrorCorrection::Quartile => qrcodegen::QrCodeEcc::Quartile,
        QrErrorCorrection::High => qrcodegen::QrCodeEcc::High,
    };
    let mode = qrcodegen::QrSegmentMode::Byte;
    let segments = [qrcodegen::QrSegment::new(mode, 0, vec![false; 24000])];
    match qrcodegen::QrCode::encode_segments_advanced(&segments, level, version, version, None, false) {
        Err(qrcodegen::DataTooLong::DataOverCapacity(_, bits)) => bits,
        _ => 0,
    }
}

/// Calls `qrcodegen::QrCode::encode_codewords`, which takes as many codewords as
/// the symbol holds. The result depends on nothing but the arguments, and its
/// side follows from the version.
#[verifier::external_body]
fn encode_codewords(version: u8, level: QrErrorCorrection, codewords: &Vec<u8>, mask: u8) -> (code:
    qrcodegen::QrCode)
    requires
        1 <= version <= 40,
        mask <= 7,
        codewords@.len() * 8 == capacity_bits(version, level),
    ensures
        code_modules(code) == codeword_modules(version, level, codewords@, mask),
        code_modules(code).dom() == square(symbol_side(version)),
{
    let level = match level {
        QrErrorCorrection::Low => qrcodegen::QrCodeEcc::Low,
        QrErrorCorrection::Medium => qrcodegen::QrCodeEcc::Medium,
        QrErrorCorrection::Quartile => qrcodegen::QrCodeEcc::Quartile,
        QrErrorCorrection::High => qrcodegen::QrCodeEcc::High,
    };
    let version = qrcodegen::Version::new(version);
    let mask = Some(qrcodegen::Mask::new(mask));
    qrcodegen::QrCode::encode_codewords(version, level, codewords.as_slice(), mask)
}

/// `qrcodegen::QrCode::get_module` tells the color of a module, and takes any
/// place outside the symbol for light.
pub assume_specification[ qrcodegen::QrCode::get_module ](
    code: &qrcodegen::QrCode,
    x: i32,
    y: i32,
) -> (dark: bool)
    ensures
        dark == (code_modules(*code).dom().contains((x as int, y as int)) && code_modules(
            *code,
        )[(x as int, y as int)]),
;

/// `qrcodegen::QrCode::size` tells the modules on a side, of which there are 21
/// to 177.
pub assume_specification[ qrcodegen::QrCode::size ](code: &qrcodegen::QrCode) -> (size: i32)
    ensures
        21 <= size <= 177,
        code_modules(*code).dom() == square(size as int),
;

/// Modules that stay light around a symbol.
pub const QUIET_ZONE_MODULES: u32 = 4;

/// A symbol: the modules on a side and, row by row, which modules are dark.
pub type Symbol = (nat, Seq<bool>);

/// What is said of codewords that do not fill a symbol.
pub open spec fn codeword_count_text(count: nat, version: u8, level: QrErrorCorrection) -> Seq<char> {
    "QR source data has "@ + decimal(count) + " codewords, which does not match version "@
        + decimal(version as nat) + " at error correction "@ + level_name(level)
}

/// The modules of a square map, row by row.
pub open spec fn rows(modules: Map<(int, int), bool>, side: nat) -> Seq<bool> {
    Seq::new(side * side, |i: int| modules[(i % side as int, i / side as int)])
}

/// The symbol that a source describes, or what is wrong with the source.
pub open spec fn source_symbol(
    codewords_base64: Seq<char>,
    version: u8,
    mask: u8,
    level: QrErrorCorrection,
) -> Result<Symbol, RenderFault> {
    if !(1 <= version <= 40) {
        Err(RenderFault::Layout("QR source version must be between 1 and 40"@))
    } else if mask > 7 {
        Err(RenderFault::Layout("QR source mask_pattern must be between 0 and 7"@))
    } else {
        match base64_bytes(codewords_base64) {
            Err(text) => Err(
                RenderFault::Layout("QR source data_codewords_base64 is invalid: "@ + text),
            ),
            Ok(codewords) => codeword_symbol(codewords, version, mask, level),
        }
    }
}

/// The symbol with the given data codewords, or what is wrong with them.
pub open spec fn codeword_symbol(
    codewords: Seq<u8>,
    version: u8,
    mask: u8,
    level: QrErrorCorrection,
) -> Result<Symbol, RenderFault> {
    if codewords.len() == 0 {
        Err(RenderFault::Layout("QR source data_codewords_base64 cannot be empty"@))
    } else if codewords.len() * 8 != capacity_bits(version, level) {
        Err(RenderFault::Layout(codeword_count_text(codewords.len(), version, level)))
    } else {
        let side = symbol_side(version) as nat;
        Ok((side, rows(codeword_modules(version, level, codewords, mask), side)))
    }
}

/// The symbol to draw, or why there is none.
pub open spec fn symbol(
    content: Seq<char>,
    level: QrErrorCorrection,
    source: Option<QrSource>,
) -> Result<Symbol, RenderFault> {
    match source {
        Some(source) => source_symbol(
            source.data_codewords_base64@,
            source.version,
            source.mask_pattern,
            level,
        ),
        None => match encoded_symbol(content, level) {
            Ok(symbol) => Ok(symbol),
            Err(text) => Err(RenderFault::Layout("QR code encoding failed: "@ + text)),
        },
    }
}

/// A result with its parts replaced by their mathematical values.
pub open spec fn symbol_outcome(result: Result<(u32, Vec<bool>), RenderError>) -> Result<
    Symbol,
    RenderFault,
> {
    match result {
        Ok((side, modules)) => Ok((side as nat, modules@)),
        Err(error) => Err(error@),
    }
}

/// Makes the symbol with the given data codewords.
pub fn codeword_symbol_modules(
    codewords: &Vec<u8>,
    version: u8,
    mask: u8,
    level: QrErrorCorrection,
) -> (result: Result<(u32, Vec<bool>), RenderError>)
    requires
        1 <= version <= 40,
        mask <= 7,
    ensures
        symbol_outcome(result) == codeword_symbol(codewords@, version, mask, level),
        result matches Ok((side, modules)) ==> 21 <= side <= 177 && modules@.len() == side * side,
{
    if codewords.len() == 0 {
        return Err(
            RenderError::Layout("QR source data_codewords_base64 cannot be empty".to_string()),
        );
    }
    let bits: usize = data_capacity_bits(version, level);
    if bits % 8 != 0 || codewords.len() != bits / 8 {
        let mut text = "QR source data has ".to_string();
        push_decimal(&mut text, codewords.len() as u64);
        text.append(" codewords, which does not match version ");
        push_decimal(&mut text, version as u64);
        text.append(" at error correction ");
        text.append(level.name());
        return Err(RenderError::Layout(text));
    }
    let code = encode_codewords(version, level, codewords, mask);
    let side: i32 = code.size();
    proof {
        assert(square(side as int).contains((side - 1, 0)));
        assert(square(symbol_side(version)).contains((symbol_side(version) - 1, 0)));
    }
    let ghost whole = rows(code_modules(code), side as nat);
    let mut modules: Vec<bool> = Vec::new();
    let mut y: i32 = 0;
    while y < side
        invariant
            0 <= y <= side <= 177,
            whole == rows(code_modules(code), side as nat),
            code_modules(code).dom() == square(side as int),
            modules@.len() == y * side,
            forall|i: int| 0 <= i < modules@.len() ==> modules@[i] == whole[i],
        decreases side - y,
    {
        let mut x: i32 = 0;
        while x < side
            invariant
                0 <= x <= side <= 177,
                0 <= y < side,
                whole == rows(code_modules(code), side as nat),
                code_modules(code).dom() == square(side as int),
                modules@.len() == y * side + x,
                forall|i: int| 0 <= i < modules@.len() ==> modules@[i] == whole[i],
            decreases side - x,
        {
            let ghost at = modules@.len() as int;
            proof {
                lemma_cell(side as int, side as int, x as int, y as int);
                vstd::arithmetic::div_mod::lemma_fundamental_div_mod_converse(
                    at,
                    side as int,
                    y as int,
                    x as int,
                );
                assert(square(side as int).contains((x as int, y as int)));
                assert(whole[at] == code_modules(code)[(x as int, y as int)]);
            }
            modules.push(code.get_module(x, y));
            x = x + 1;
        }
        assert(y * side + side == (y + 1) * side) by (nonlinear_arith);
        y = y + 1;
    }
    assert(modules@ =~= whole);
    Ok((side as u32, modules))
}

/// Makes the symbol that a source describes.
pub fn source_modules(source: &QrSource, error_correction: QrErrorCorrection) -> (result: Result<
    (u32, Vec<bool>),
    RenderError,
>)
    ensures
        symbol_outcome(result) == source_symbol(
            source.data_codewords_base64@,
            source.version,
            source.mask_pattern,
            error_correction,
        ),
        result matches Ok((side, modules)) ==> 21 <= side <= 177 && modules@.len() == side * side,
{
    if source.version < 1 || source.version > 40 {
        return Err(RenderError::Layout("QR source version must be between 1 and 40".to_string()));
    }
    if source.mask_pattern > 7 {
        return Err(
            RenderError::Layout("QR source mask_pattern must be between 0 and 7".to_string()),
        );
    }
    match decode_base64(source.data_codewords_base64.as_str()) {
        Err(message) => {
            let mut text = "QR source data_codewords_base64 is invalid: ".to_string();
            text.append(message.as_str());
            Err(RenderError::Layout(text))
        },
        Ok(codewords) => codeword_symbol_modules(
            &codewords,
            source.version,
            source.mask_pattern,
            error_correction,
        ),
    }
}

/// Modules on a side of a symbol with its quiet zone.
pub open spec fn total_modules(side: nat) -> nat {
    (side + QUIET_ZONE_MODULES * 2) as nat
}

/// Pixels on a side of a module: the largest whole number with which a symbol
/// and its quiet zone fit on a canvas of `size` pixels.
pub open spec fn module_size(side: nat, size: nat) -> nat {
    size / total_modules(side)
}

/// The first column and row of the symbol on a canvas of `size` pixels: pixels
/// that are left over go around the quiet zone.
pub open spec fn symbol_origin(side: nat, size: nat) -> int {
    (size - total_modules(side) * module_size(side, size)) / 2 + QUIET_ZONE_MODULES * module_size(
        side,
        size,
    )
}

/// Whether the pixel `p` lies in the module in a column and row.
pub open spec fn in_module(p: (int, int), column: int, row: int, side: nat, size: nat) -> bool {
    let origin = symbol_origin(side, size);
    let pixels = module_size(side, size) as int;
    &&& origin + column * pixels <= p.0 < origin + column * pixels + pixels
    &&& origin + row * pixels <= p.1 < origin + row * pixels + pixels
}

/// Whether a column and row of a symbol hold a dark module.
pub open spec fn is_dark(symbol: Symbol, column: int, row: int) -> bool {
    &&& 0 <= column < symbol.0
    &&& 0 <= row < symbol.0
    &&& symbol.1[cell(symbol.0 as int, column, row)]
}

/// The picture of a symbol on a square canvas of `size` pixels.
pub open spec fn symbol_picture(symbol: Symbol, size: nat) -> Raster {
    Raster {
        width: size,
        height: size,
        dark: Set::new(
            |p: (int, int)|
                exists|column: int, row: int|
                    #![trigger in_module(p, column, row, symbol.0, size)]
                    is_dark(symbol, column, row) && in_module(p, column, row, symbol.0, size),
        ),
    }
}

/// What is said of a canvas on which the modules would get too small.
pub open spec fn too_small_text(required: nat, min_module_size: nat, size: nat) -> Seq<char> {
    "QR code requires at least "@ + decimal(required)
        + " pixels for its symbol, quiet zone, and min_module_size "@ + decimal(min_module_size)
        + ", but size is "@ + decimal(size)
}

/// The picture of a symbol, or why the canvas is too small for it.
pub open spec fn drawn_symbol(symbol: Symbol, size: nat, min_module_size: nat) -> Result<
    Raster,
    RenderFault,
> {
    if module_size(symbol.0, size) < min_module_size {
        let required = total_modules(symbol.0) * min_module_size;
        if required > u32::MAX {
            Err(RenderFault::Layout("QR code minimum module size is too large"@))
        } else {
            Err(RenderFault::Layout(too_small_text(required, min_module_size, size)))
        }
    } else {
        Ok(symbol_picture(symbol, size))
    }
}

/// A result with its parts replaced by their mathematical values.
pub open spec fn picture_outcome(result: Result<LabelBitmap, RenderError>) -> Result<
    Raster,
    RenderFault,
> {
    match result {
        Ok(bitmap) => Ok(bitmap@),
        Err(error) => Err(error@),
    }
}

/// Colors a square of pixels dark.
fn fill_square(bitmap: &mut LabelBitmap, left: u32, top: u32, side: u32)
    requires
        old(bitmap).wf(),
        left + side <= old(bitmap)@.width <= u32::MAX,
        top + side <= old(bitmap)@.height <= u32::MAX,
    ensures
        final(bitmap).wf(),
        final(bitmap)@ == (Raster {
            dark: Set::new(
                |p: (int, int)|
                    old(bitmap)@.dark.contains(p) || (left <= p.0 < left + side && top <= p.1 < top
                        + side),
            ),
            ..old(bitmap)@
        }),
{
    let ghost before = bitmap@;
    let mut y: u32 = top;
    while y < top + side
        invariant
            top <= y <= top + side,
            left + side <= before.width <= u32::MAX,
            top + side <= before.height <= u32::MAX,
            bitmap.wf(),
            bitmap@.width == before.width,
            bitmap@.height == before.height,
            forall|p: (int, int)| #[trigger]
                bitmap@.dark.contains(p) <==> before.dark.contains(p) || (left <= p.0 < left + side
                    && top <= p.1 < y),
        decreases top + side - y,
    {
        let mut x: u32 = left;
        while x < left + side
            invariant
                left <= x <= left + side,
                top <= y < top + side,
                left + side <= before.width <= u32::MAX,
                top + side <= before.height <= u32::MAX,
                bitmap.wf(),
                bitmap@.width == before.width,
                bitmap@.height == before.height,
                forall|p: (int, int)| #[trigger]
                    bitmap@.dark.contains(p) <==> before.dark.contains(p) || (left <= p.0 < left
                        + side && top <= p.1 < y) || (left <= p.0 < x && p.1 == y),
            decreases left + side - x,
        {
            bitmap.set_pixel(x, y, true);
            x = x + 1;
        }
        y = y + 1;
    }
    assert(bitmap@.dark =~= Set::new(
        |p: (int, int)|
            before.dark.contains(p) || (left <= p.0 < left + side && top <= p.1 < top + side),
    ));
}

/// The symbol with its quiet zone fits on the canvas.
proof fn lemma_fits(side: nat, size: nat, column: int, row: int)
    requires
        0 <= column < side,
        0 <= row < side,
    ensures
        total_modules(side) * module_size(side, size) <= size,
        0 <= QUIET_ZONE_MODULES * module_size(side, size) <= symbol_origin(side, size),
        0 <= column * module_size(side, size),
        0 <= row * module_size(side, size),
        symbol_origin(side, size) + column * module_size(side, size) + module_size(side, size)
            + QUIET_ZONE_MODULES * module_size(side, size) <= size,
        symbol_origin(side, size) + row * module_size(side, size) + module_size(side, size)
            + QUIET_ZONE_MODULES * module_size(side, size) <= size,
{
    let total = total_modules(side) as int;
    let pixels = module_size(side, size) as int;
    assert(pixels * total <= size) by {
        vstd::arithmetic::div_mod::lemma_fundamental_div_mod(size as int, total);
        assert(total * pixels == pixels * total) by (nonlinear_arith);
    }
    assert(total * pixels == pixels * total) by (nonlinear_arith);
    assert(total * pixels == side * pixels + 8 * pixels) by (nonlinear_arith)
        requires
            total == side + 8,
    ;
    assert(column * pixels + pixels <= side * pixels) by (nonlinear_arith)
        requires
            column + 1 <= side,
            0 <= pixels,
    ;
    assert(row * pixels + pixels <= side * pixels) by (nonlinear_arith)
        requires
            row + 1 <= side,
            0 <= pixels,
    ;
    assert(0 <= column * pixels) by (nonlinear_arith)
        requires
            0 <= column,
            0 <= pixels,
    ;
    assert(0 <= row * pixels) by (nonlinear_arith)
        requires
            0 <= row,
            0 <= pixels,
    ;
}

/// Whether a module comes before the one at `(column, row)` when the rows are
/// drawn from the top and each from the left.
spec fn comes_before(c: int, r: int, column: int, row: int) -> bool {
    r < row || (r == row && c < column)
}

/// Whether `p` lies in a dark module that comes before `(column, row)`.
spec fn drawn_before(p: (int, int), symbol: Symbol, size: nat, column: int, row: int) -> bool {
    exists|c: int, r: int|
        #![trigger in_module(p, c, r, symbol.0, size)]
        comes_before(c, r, column, row) && is_dark(symbol, c, r) && in_module(
            p,
            c,
            r,
            symbol.0,
            size,
        )
}

/// Draws a symbol of square modules with its quiet zone onto a square canvas of
/// `size` pixels.
pub fn render_modules(symbol_width: u32, modules: &Vec<bool>, size: u32, min_module_size: u32) -> (
    result: Result<LabelBitmap, RenderError>)
    requires
        symbol_width <= u32::MAX - QUIET_ZONE_MODULES * 2,
        modules@.len() == symbol_width * symbol_width,
    ensures
        picture_outcome(result) == drawn_symbol(
            (symbol_width as nat, modules@),
            size as nat,
            min_module_size as nat,
        ),
        result matches Ok(bitmap) ==> bitmap.wf(),
{
    let ghost symbol = (symbol_width as nat, modules@);
    let total: u32 = symbol_width + QUIET_ZONE_MODULES * 2;
    let pixels: u32 = size / total;
    if pixels < min_module_size {
        let required: u32 = match total.checked_mul(min_module_size) {
            Some(required) => required,
            None => return Err(
                RenderError::Layout("QR code minimum module size is too large".to_string()),
            ),
        };
        let mut text = "QR code requires at least ".to_string();
        push_decimal(&mut text, required as u64);
        text.append(" pixels for its symbol, quiet zone, and min_module_size ");
        push_decimal(&mut text, min_module_size as u64);
        text.append(", but size is ");
        push_decimal(&mut text, size as u64);
        return Err(RenderError::Layout(text));
    }
    proof {
        vstd::arithmetic::div_mod::lemma_fundamental_div_mod(size as int, total as int);
        assert(4 * pixels <= total * pixels) by (nonlinear_arith)
            requires
                4 <= total,
                0 <= pixels,
        ;
    }
    let rendered_size: u32 = total * pixels;
    let outer_padding: u32 = (size - rendered_size) / 2;
    assert((size - total * pixels) / 2 + 4 * pixels <= size) by {
        assert(total * pixels >= 8 * pixels) by (nonlinear_arith)
            requires
                8 <= total,
                0 <= pixels,
        ;
    }
    let origin: u32 = outer_padding + QUIET_ZONE_MODULES * pixels;
    assert(origin == symbol_origin(symbol.0, size as nat));
    let mut bitmap = LabelBitmap::new(size, size);
    let mut row: u32 = 0;
    while row < symbol_width
        invariant
            row <= symbol_width,
            symbol_width <= u32::MAX - QUIET_ZONE_MODULES * 2,
            modules@.len() == symbol_width * symbol_width,
            symbol == (symbol_width as nat, modules@),
            pixels == module_size(symbol.0, size as nat),
            origin == symbol_origin(symbol.0, size as nat),
            bitmap.wf(),
            bitmap@.width == size,
            bitmap@.height == size,
            forall|p: (int, int)| #[trigger]
                bitmap@.dark.contains(p) <==> drawn_before(p, symbol, size as nat, 0, row as int),
        decreases symbol_width - row,
    {
        let mut column: u32 = 0;
        while column < symbol_width
            invariant
                column <= symbol_width,
                row < symbol_width,
                symbol_width <= u32::MAX - QUIET_ZONE_MODULES * 2,
                modules@.len() == symbol_width * symbol_width,
                symbol == (symbol_width as nat, modules@),
                pixels == module_size(symbol.0, size as nat),
                origin == symbol_origin(symbol.0, size as nat),
                bitmap.wf(),
                bitmap@.width == size,
                bitmap@.height == size,
                forall|p: (int, int)| #[trigger]
                    bitmap@.dark.contains(p) <==> drawn_before(
                        p,
                        symbol,
                        size as nat,
                        column as int,
                        row as int,
                    ),
            decreases symbol_width - column,
        {
            proof {
                lemma_cell(symbol_width as int, symbol_width as int, column as int, row as int);
                lemma_fits(symbol.0, size as nat, column as int, row as int);
                assert(modules.len() == modules@.len());
            }
            let ghost before = bitmap@;
            let index: usize = row as usize * symbol_width as usize + column as usize;
            if modules[index] {
                let left: u32 = origin + column * pixels;
                let top: u32 = origin + row * pixels;
                fill_square(&mut bitmap, left, top, pixels);
                assert forall|p: (int, int)|
                    (left <= p.0 < left + pixels && top <= p.1 < top + pixels) == in_module(
                        p,
                        column as int,
                        row as int,
                        symbol.0,
                        size as nat,
                    ) by {}
            }
            assert forall|p: (int, int)| #[trigger]
                bitmap@.dark.contains(p) <==> drawn_before(
                    p,
                    symbol,
                    size as nat,
                    column + 1,
                    row as int,
                ) by {
                assert(before.dark.contains(p) <==> drawn_before(
                    p,
                    symbol,
                    size as nat,
                    column as int,
                    row as int,
                ));
                let here = in_module(p, column as int, row as int, symbol.0, size as nat);
                assert(modules@[index as int] == is_dark(symbol, column as int, row as int));
                if drawn_before(p, symbol, size as nat, column + 1, row as int) {
                    let (c, r) = choose|c: int, r: int|
                        #![trigger in_module(p, c, r, symbol.0, size as nat)]
                        comes_before(c, r, column + 1, row as int) && is_dark(symbol, c, r)
                            && in_module(p, c, r, symbol.0, size as nat);
                    if !comes_before(c, r, column as int, row as int) {
                        assert(c == column && r == row);
                    }
                }
            }
            column = column + 1;
        }
        assert forall|p: (int, int)|
            drawn_before(p, symbol, size as nat, symbol_width as int, row as int) == drawn_before(
                p,
                symbol,
                size as nat,
                0,
                row + 1,
            ) by {
            if drawn_before(p, symbol, size as nat, 0, row + 1) {
                let (c, r) = choose|c: int, r: int|
                    #![trigger in_module(p, c, r, symbol.0, size as nat)]
                    comes_before(c, r, 0, row + 1) && is_dark(symbol, c, r) && in_module(
                        p,
                        c,
                        r,
                        symbol.0,
                        size as nat,
                    );
                assert(comes_before(c, r, symbol_width as int, row as int));
            }
            if drawn_before(p, symbol, size as nat, symbol_width as int, row as int) {
                let (c, r) = choose|c: int, r: int|
                    #![trigger in_module(p, c, r, symbol.0, size as nat)]
                    comes_before(c, r, symbol_width as int, row as int) && is_dark(symbol, c, r)
                        && in_module(p, c, r, symbol.0, size as nat);
                assert(comes_before(c, r, 0, row + 1));
            }
        }
        row = row + 1;
    }
    assert(bitmap@ =~= symbol_picture(symbol, size as nat)) by {
        let whole = symbol_picture(symbol, size as nat);
        assert forall|p: (int, int)| bitmap@.dark.contains(p) == whole.dark.contains(p) by {
            if whole.dark.contains(p) {
                let (c, r) = choose|c: int, r: int|
                    #![trigger in_module(p, c, r, symbol.0, size as nat)]
                    is_dark(symbol, c, r) && in_module(p, c, r, symbol.0, size as nat);
                assert(comes_before(c, r, 0, symbol_width as int));
            }
        }
    }
    Ok(bitmap)
}

/// What `render_qr` returns: the picture of a QR code, or why there is none.
pub open spec fn qr_picture(
    content: Seq<char>,
    level: QrErrorCorrection,
    size: nat,
    min_module_size: nat,
    source: Option<QrSource>,
) -> Result<Raster, RenderFault> {
    if content.len() == 0 {
        Err(RenderFault::Layout("QR code content cannot be empty"@))
    } else if size == 0 {
        Err(RenderFault::Layout("QR code size must be greater than zero"@))
    } else if min_module_size == 0 {
        Err(RenderFault::Layout("QR code min_module_size must be greater than zero"@))
    } else {
        match symbol(content, level, source) {
            Err(fault) => Err(fault),
            Ok(symbol) => drawn_symbol(symbol, size, min_module_size),
        }
    }
}

/// Whether a request gets as far as encoding its content.
pub open spec fn encodes_content(
    content: Seq<char>,
    size: nat,
    min_module_size: nat,
    has_source: bool,
) -> bool {
    content.len() > 0 && size > 0 && min_module_size > 0 && !has_source
}

/// Draws a QR code of `content`, or of the codewords in `source`, onto a square
/// canvas of `size` pixels.
///
/// The modules get the largest whole number of pixels that fits. Pixels that are
/// left over go around the quiet zone of four modules, so that every module is
/// square and pixel exact.
pub fn render_qr(
    content: &str,
    error_correction: QrErrorCorrection,
    size: u32,
    min_module_size: u32,
    source: Option<&QrSource>,
) -> (result: Result<LabelBitmap, RenderError>)
    requires
        encodes_content(content@, size as nat, min_module_size as nat, source is Some)
            ==> mask_scores_fit(content@, error_correction),
    ensures
        picture_outcome(result) == qr_picture(
            content@,
            error_correction,
            size as nat,
            min_module_size as nat,
            match source {
                Some(source) => Some(*source),
                None => None,
            },
        ),
        result matches Ok(bitmap) ==> bitmap.wf(),
{
    if content.is_empty() {
        return Err(RenderError::Layout("QR code content cannot be empty".to_string()));
    }
    if size == 0 {
        return Err(RenderError::Layout("QR code size must be greater than zero".to_string()));
    }
    if min_module_size == 0 {
        return Err(
            RenderError::Layout("QR code min_module_size must be greater than zero".to_string()),
        );
    }
    let (width, modules): (u32, Vec<bool>) = match source {
        Some(source) => match source_modules(source, error_correction) {
            Ok(symbol) => symbol,
            Err(error) => return Err(error),
        },
        None => match encode_content(content, error_correction) {
            Ok((width, modules)) => (width as u32, modules),
            Err(message) => {
                let mut text = "QR code encoding failed: ".to_string();
                text.append(message.as_str());
                return Err(RenderError::Layout(text));
            },
        },
    };
    render_modules(width, &modules, size, min_module_size)
}

/// Draws a QR code like [`render_qr`], unless its content would have to be put
/// into a symbol whose mask scores may not fit into 16 bits.
pub fn try_render_qr(
    content: &str,
    error_correction: QrErrorCorrection,
    size: u32,
    min_module_size: u32,
    source: Option<&QrSource>,
) -> (drawn: Option<Result<LabelBitmap, RenderError>>)
    ensures
        match drawn {
            Some(result) => {
                &&& encodes_content(content@, size as nat, min_module_size as nat, source is Some)
                    ==> mask_scores_fit(content@, error_correction)
                &&& picture_outcome(result) == qr_picture(
                    content@,
                    error_correction,
                    size as nat,
                    min_module_size as nat,
                    match source {
                        Some(source) => Some(*source),
                        None => None,
                    },
                )
                &&& result matches Ok(bitmap) ==> bitmap.wf()
            },
            None => {
                &&& encodes_content(content@, size as nat, min_module_size as nat, source is Some)
                &&& !mask_scores_fit(content@, error_correction)
            },
        },
{
    let encodes: bool = !content.is_empty() && size > 0 && min_module_size > 0 && source.is_none();
    if encodes && !content_fits(content, error_correction) {
        return None;
    }
    Some(render_qr(content, error_correction, size, min_module_size, source))
}

/// Around a symbol at least four modules' worth of pixels stay light.
pub proof fn law_quiet_zone_stays_light(symbol: Symbol, size: nat, p: (int, int))
    requires
        symbol_picture(symbol, size).dark.contains(p),
    ensures
        QUIET_ZONE_MODULES * module_size(symbol.0, size) <= p.0,
        QUIET_ZONE_MODULES * module_size(symbol.0, size) <= p.1,
        p.0 < size - QUIET_ZONE_MODULES * module_size(symbol.0, size),
        p.1 < size - QUIET_ZONE_MODULES * module_size(symbol.0, size),
{
    let (c, r) = choose|c: int, r: int|
        #![trigger in_module(p, c, r, symbol.0, size)]
        is_dark(symbol, c, r) && in_module(p, c, r, symbol.0, size);
    lemma_fits(symbol.0, size, c, r);
}

/// The modules are as large as they can be.
pub proof fn law_modules_are_as_large_as_fits(side: nat, size: nat)
    ensures
        total_modules(side) * module_size(side, size) <= size,
        size < total_modules(side) * (module_size(side, size) + 1),
{
    let total = total_modules(side) as int;
    let pixels = module_size(side, size) as int;
    vstd::arithmetic::div_mod::lemma_fundamental_div_mod(size as int, total);
    assert(total * (pixels + 1) == total * pixels + total) by (nonlinear_arith);
}

/// Every pixel of a module has the color of the module, so that a symbol can be
/// read back from its picture.
pub proof fn law_symbol_can_be_read_back(
    symbol: Symbol,
    size: nat,
    column: int,
    row: int,
    p: (int, int),
)
    requires
        0 <= column < symbol.0,
        0 <= row < symbol.0,
        in_module(p, column, row, symbol.0, size),
    ensures
        symbol_picture(symbol, size).dark.contains(p) == symbol.1[cell(
            symbol.0 as int,
            column,
            row,
        )],
{
    let origin = symbol_origin(symbol.0, size);
    let pixels = module_size(symbol.0, size) as int;
    assert(is_dark(symbol, column, row) == symbol.1[cell(symbol.0 as int, column, row)]);
    if symbol_picture(symbol, size).dark.contains(p) {
        let (c, r) = choose|c: int, r: int|
            #![trigger in_module(p, c, r, symbol.0, size)]
            is_dark(symbol, c, r) && in_module(p, c, r, symbol.0, size);
        lemma_same_step(p.0 - origin, pixels, column, c);
        lemma_same_step(p.1 - origin, pixels, row, r);
    }
}

/// A place lies in one step only.
proof fn lemma_same_step(at: int, step: int, i: int, j: int)
    requires
        i * step <= at < i * step + step,
        j * step <= at < j * step + step,
    ensures
        i == j,
{
    assert(i == j) by (nonlinear_arith)
        requires
            i * step <= at < i * step + step,
            j * step <= at < j * step + step,
    ;
}

} // verus!

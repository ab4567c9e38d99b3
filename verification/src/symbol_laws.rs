//! What holds of every QR code on a label, and of every angle.

use vstd::arithmetic::div_mod::{lemma_fundamental_div_mod, lemma_fundamental_div_mod_converse};
use vstd::arithmetic::power2::pow2;
use vstd::prelude::*;

use crate::bitmap::{LabelBitmap, Raster};
use crate::document::{level_name, QrErrorCorrection, QrSource};
use crate::error::{RenderError, RenderFault};
use crate::message::decimal;
use crate::qr::{
    base64_bytes, capacity_bits, codeword_modules, drawn_symbol, encoded_symbol, encodes_content,
    in_module, is_dark, law_symbol_can_be_read_back, mask_scores_fit, module_size, picked_version,
    picture_outcome, qr_picture, rows, source_symbol, symbol, symbol_origin, symbol_outcome,
    symbol_picture, total_modules, Symbol,
};
use crate::rotation::{
    exponent, lemma_large, lemma_medium, lemma_powers, lemma_small, significand, unrotated,
};

verus! {

/// A symbol stands in the middle of its canvas, its modules as large as a quiet
/// zone of four modules on each side allows. With `pixels` on a side of a module
/// and the corner of the symbol at `origin`, each pixel of the module in a column
/// and a row has the color of that module, the modules being counted row by row.
pub proof fn law_symbols_stand_in_the_middle(
    symbol: Symbol,
    size: nat,
    pixels: int,
    origin: int,
    column: int,
    row: int,
    dx: int,
    dy: int,
)
    requires
        pixels * (symbol.0 + 8) <= size < (pixels + 1) * (symbol.0 + 8),
        2 * origin <= size - pixels * symbol.0 <= 2 * origin + 1,
        0 <= column < symbol.0,
        0 <= row < symbol.0,
        0 <= dx < pixels,
        0 <= dy < pixels,
    ensures
        symbol_picture(symbol, size).width == size,
        symbol_picture(symbol, size).height == size,
        symbol_picture(symbol, size).dark.contains(
            (origin + column * pixels + dx, origin + row * pixels + dy),
        ) == symbol.1[row * symbol.0 + column],
{
    lemma_middle(symbol.0, size, pixels, origin);
    law_symbol_can_be_read_back(
        symbol,
        size,
        column,
        row,
        (origin + column * pixels + dx, origin + row * pixels + dy),
    );
}

/// Where a symbol stands.
proof fn lemma_middle(side: nat, size: nat, pixels: int, origin: int)
    requires
        pixels * (side + 8) <= size < (pixels + 1) * (side + 8),
        2 * origin <= size - pixels * side <= 2 * origin + 1,
    ensures
        module_size(side, size) == pixels,
        symbol_origin(side, size) == origin,
{
    let total = side as int + 8;
    assert((pixels + 1) * total == pixels * total + total) by (nonlinear_arith);
    lemma_fundamental_div_mod_converse(size as int, total, pixels, size - pixels * total);
    assert(total * pixels == pixels * side + 8 * pixels) by (nonlinear_arith)
        requires
            total == side + 8,
    ;
}

/// All pixels that are not in a module of the symbol are light.
pub proof fn law_only_modules_are_dark(
    symbol: Symbol,
    size: nat,
    pixels: int,
    origin: int,
    p: (int, int),
)
    requires
        pixels * (symbol.0 + 8) <= size < (pixels + 1) * (symbol.0 + 8),
        2 * origin <= size - pixels * symbol.0 <= 2 * origin + 1,
        symbol_picture(symbol, size).dark.contains(p),
    ensures
        origin <= p.0 < origin + pixels * symbol.0,
        origin <= p.1 < origin + pixels * symbol.0,
{
    lemma_middle(symbol.0, size, pixels, origin);
    let (c, r) = choose|c: int, r: int|
        #![trigger in_module(p, c, r, symbol.0, size)]
        is_dark(symbol, c, r) && in_module(p, c, r, symbol.0, size);
    let n = symbol.0 as int;
    assert(pixels >= 0) by (nonlinear_arith)
        requires
            0 <= size,
            size < (pixels + 1) * (n + 8),
            0 <= n,
    ;
    assert(0 <= c * pixels && c * pixels + pixels <= pixels * n) by (nonlinear_arith)
        requires
            0 <= c < n,
            0 <= pixels,
    ;
    assert(0 <= r * pixels && r * pixels + pixels <= pixels * n) by (nonlinear_arith)
        requires
            0 <= r < n,
            0 <= pixels,
    ;
}

/// A symbol is drawn if its modules, with the quiet zone, get at least as many
/// pixels as was asked for; otherwise the canvas is too small.
pub proof fn law_symbols_need_room(symbol: Symbol, size: nat, min_module_size: nat)
    ensures
        drawn_symbol(symbol, size, min_module_size) is Ok <==> min_module_size * (symbol.0 + 8)
            <= size,
        drawn_symbol(symbol, size, min_module_size) matches Ok(picture) ==> picture
            == symbol_picture(symbol, size),
        drawn_symbol(symbol, size, min_module_size) matches Err(fault) ==> fault is Layout,
{
    let (total, wanted) = (symbol.0 as int + 8, min_module_size as int);
    let pixels = size as int / total;
    lemma_fundamental_div_mod(size as int, total);
    assert(total * pixels == pixels * total) by (nonlinear_arith);
    assert((pixels >= wanted) == (wanted * total <= size)) by (nonlinear_arith)
        requires
            pixels * total <= size < pixels * total + total,
            0 < total,
    ;
}

/// A request needs content, a canvas and a module size; a source, where there is
/// one, is drawn instead of the content, which then does not matter.
pub proof fn law_a_source_replaces_the_content(
    content: Seq<char>,
    other: Seq<char>,
    level: QrErrorCorrection,
    size: nat,
    min_module_size: nat,
    source: QrSource,
)
    requires
        content.len() > 0,
        other.len() > 0,
    ensures
        qr_picture(content, level, size, min_module_size, Some(source)) == qr_picture(
            other,
            level,
            size,
            min_module_size,
            Some(source),
        ),
        qr_picture(Seq::empty(), level, size, min_module_size, Some(source)) is Err,
        size == 0 ==> qr_picture(content, level, size, min_module_size, Some(source)) is Err,
        min_module_size == 0 ==> qr_picture(content, level, size, min_module_size, Some(source))
            is Err,
{
}

/// What is drawn of a content is the symbol that it is encoded in, and of a source
/// the symbol that it describes, if the canvas has room for it.
pub proof fn law_pictures_show_the_symbol(
    content: Seq<char>,
    level: QrErrorCorrection,
    size: nat,
    min_module_size: nat,
    source: Option<QrSource>,
)
    requires
        content.len() > 0,
        size > 0,
        min_module_size > 0,
    ensures
        ({
            let picture = qr_picture(content, level, size, min_module_size, source);
            &&& source is None ==> match encoded_symbol(content, level) {
                Ok(found) => picture == drawn_symbol(found, size, min_module_size),
                Err(_) => picture is Err,
            }
            &&& source matches Some(given) ==> match source_symbol(
                given.data_codewords_base64@,
                given.version,
                given.mask_pattern,
                level,
            ) {
                Ok(found) => picture == drawn_symbol(found, size, min_module_size),
                Err(fault) => picture == Err::<Raster, RenderFault>(fault),
            }
            &&& source is None ==> (symbol(content, level, source) is Ok <==> encoded_symbol(
                content,
                level,
            ) is Ok)
        }),
{
}

/// A source describes a symbol if its version and its mask exist, its text is
/// base64, and it holds as many codewords as the version does at that level.
/// The symbol has the side of its version, and the module in a column and a row is
/// the one that these codewords and this mask put there.
pub proof fn law_sources_describe_their_symbol(
    text: Seq<char>,
    version: u8,
    mask: u8,
    level: QrErrorCorrection,
)
    ensures
        source_symbol(text, version, mask, level) is Ok <==> {
            &&& 1 <= version <= 40
            &&& mask <= 7
            &&& base64_bytes(text) matches Ok(codewords) && codewords.len() > 0 && codewords.len()
                * 8 == capacity_bits(version, level)
        },
        source_symbol(text, version, mask, level) matches Ok(found) ==> {
            let modules = codeword_modules(version, level, base64_bytes(text)->Ok_0, mask);
            &&& found.0 == 17 + 4 * version
            &&& found.1.len() == found.0 * found.0
            &&& forall|column: int, row: int|
                0 <= column < found.0 && 0 <= row < found.0 ==> #[trigger] modules[(column, row)]
                    == found.1[row * found.0 + column]
        },
{
    if let Ok(found) = source_symbol(text, version, mask, level) {
        let modules = codeword_modules(version, level, base64_bytes(text)->Ok_0, mask);
        assert forall|column: int, row: int|
            0 <= column < found.0 && 0 <= row < found.0 implies #[trigger] modules[(column, row)]
            == found.1[row * found.0 + column] by {
            law_rows_hold_the_columns(modules, found.0, column, row);
        }
    }
}

/// Written row by row, the module in a column and a row stands behind the rows
/// above it and the columns to its left.
pub proof fn law_rows_hold_the_columns(
    modules: Map<(int, int), bool>,
    side: nat,
    column: int,
    row: int,
)
    requires
        0 <= column < side,
        0 <= row < side,
    ensures
        rows(modules, side)[row * side + column] == modules[(column, row)],
        rows(modules, side).len() == side * side,
{
    let at = row * side + column;
    assert(0 <= at < side * side) by (nonlinear_arith)
        requires
            at == row * side + column,
            0 <= column < side,
            0 <= row < side,
    ;
    lemma_fundamental_div_mod_converse(at, side as int, row, column);
}

/// The quiet zone is four modules wide on each side.
pub proof fn law_the_quiet_zone_is_four_modules(side: nat)
    ensures
        total_modules(side) == 4 + side + 4,
{
}

/// An angle below half a degree is no rotation. The bits of the numbers from zero
/// on rise with them, up to those of one half.
pub proof fn law_less_than_half_a_degree_is_no_rotation(bits: u32)
    requires
        bits < 0x3f00_0000,
    ensures
        unrotated(bits),
{
    lemma_small(bits);
    lemma_powers();
}

/// A negative angle is no rotation below half a degree less a rounding step.
pub proof fn law_less_than_half_a_degree_backwards_is_no_rotation(bits: u32)
    requires
        0x8000_0000 <= bits < 0xbf00_0000,
    ensures
        unrotated(bits) <==> bits < 0xbeff_fe00,
{
    lemma_small(bits);
    lemma_powers();
    assert(exponent(bits) == 125 || exponent(bits) < 125);
}

/// An angle from half a degree on is no rotation if it is within half a degree of a
/// whole number of turns. `scaled` is the angle in parts of a degree, of which
/// there are 2 to the power of 24.
pub proof fn law_angles_near_a_whole_turn_are_no_rotation(bits: u32, scaled: nat)
    requires
        126 <= exponent(bits) <= 150,
        scaled == significand(bits) * pow2((exponent(bits) - 126) as nat),
    ensures
        ({
            let rest = scaled % (360 * 0x100_0000);
            let half = if bits < 0x8000_0000 {
                0x80_0000
            } else {
                0x80_0000 - 0x100
            };
            unrotated(bits) <==> rest < half || 360 * 0x100_0000 - rest < 0x80_0000
        }),
{
    lemma_medium(bits, scaled);
    assert(scaled % (360 * 0x100_0000) == scaled % 0x1_6800_0000);
}

/// An angle of whole degrees is no rotation if it is a whole number of turns.
pub proof fn law_whole_turns_are_no_rotation(bits: u32)
    requires
        150 <= exponent(bits) < 255,
    ensures
        unrotated(bits) <==> (significand(bits) * pow2((exponent(bits) - 150) as nat)) % 360 == 0,
{
    lemma_large(bits);
}

/// What is no number, or infinite, is a rotation.
pub proof fn law_infinities_are_rotations(bits: u32)
    requires
        bits % 0x8000_0000 >= 0x7f80_0000,
    ensures
        !unrotated(bits),
{
}

/// The parts of the bits of a number: with a sign bit above them, the exponent
/// stands above the 23 lower bits of the significand, whose highest bit is left out
/// where there is an exponent.
pub proof fn law_numbers_are_made_of_their_parts(bits: u32)
    ensures
        exponent(bits) <= 255,
        exponent(bits) == 0 ==> bits % 0x8000_0000 == significand(bits),
        exponent(bits) > 0 ==> bits % 0x8000_0000 == exponent(bits) * 0x80_0000 + significand(bits)
            - 0x80_0000,
        significand(bits) < 0x100_0000,
{
}

/// A content is encoded wherever its symbol is of version 13 or less, or does not
/// exist.
pub proof fn law_which_contents_are_encoded(
    content: Seq<char>,
    level: QrErrorCorrection,
    size: nat,
    min_module_size: nat,
)
    ensures
        mask_scores_fit(content, level) <==> (picked_version(content, level) matches Some(version)
            ==> version <= 13),
        encodes_content(content, size, min_module_size, false) <==> content.len() > 0 && size > 0
            && min_module_size > 0,
        !encodes_content(content, size, min_module_size, true),
{
}

/// The outcome of a drawing, or of a symbol, is what was drawn or the model of the
/// error.
pub proof fn law_outcomes_show_what_was_drawn(
    picture: Result<LabelBitmap, RenderError>,
    found: Result<(u32, Vec<bool>), RenderError>,
)
    ensures
        picture matches Ok(bitmap) ==> picture_outcome(picture) == Ok::<Raster, RenderFault>(
            bitmap@,
        ),
        picture matches Err(error) ==> picture_outcome(picture) == Err::<Raster, RenderFault>(
            error@,
        ),
        found matches Ok((side, modules)) ==> symbol_outcome(found) == Ok::<Symbol, RenderFault>(
            (side as nat, modules@),
        ),
        found matches Err(error) ==> symbol_outcome(found) == Err::<Symbol, RenderFault>(error@),
{
}

/// What is wrong with a request is told: that it has no content first, then no
/// canvas, then no module size.
pub proof fn law_empty_requests_are_told(
    content: Seq<char>,
    level: QrErrorCorrection,
    size: nat,
    min_module_size: nat,
    source: Option<QrSource>,
)
    ensures
        ({
            let picture = qr_picture(content, level, size, min_module_size, source);
            let told = |text: Seq<char>|
                picture == Err::<Raster, RenderFault>(RenderFault::Layout(text));
            let said = content.len() > 0;
            &&& !said ==> told("QR code content cannot be empty"@)
            &&& said && size == 0 ==> told("QR code size must be greater than zero"@)
            &&& said && size > 0 && min_module_size == 0 ==> told(
                "QR code min_module_size must be greater than zero"@,
            )
            &&& said && size > 0 && min_module_size > 0 && source is None ==> (encoded_symbol(
                content,
                level,
            ) matches Err(text) ==> told("QR code encoding failed: "@ + text))
        }),
{
}

/// What is wrong with a source is told: its version first, then its mask, its text,
/// that it is empty, and that it does not fill the symbol.
pub proof fn law_wrong_sources_are_told(
    text: Seq<char>,
    version: u8,
    mask: u8,
    level: QrErrorCorrection,
)
    ensures
        ({
            let found = source_symbol(text, version, mask, level);
            let told = |text: Seq<char>|
                found == Err::<Symbol, RenderFault>(RenderFault::Layout(text));
            let (known, masked) = (1 <= version <= 40, mask <= 7);
            &&& !known ==> told("QR source version must be between 1 and 40"@)
            &&& known && !masked ==> told("QR source mask_pattern must be between 0 and 7"@)
            &&& known && masked ==> (base64_bytes(text) matches Err(reason) ==> told(
                "QR source data_codewords_base64 is invalid: "@ + reason,
            ))
            &&& known && masked ==> (base64_bytes(text) matches Ok(codewords) ==> {
                &&& codewords.len() == 0 ==> told(
                    "QR source data_codewords_base64 cannot be empty"@,
                )
                &&& codewords.len() > 0 && codewords.len() * 8 != capacity_bits(version, level)
                    ==> told(
                    "QR source data has "@ + decimal(codewords.len())
                        + " codewords, which does not match version "@ + decimal(version as nat)
                        + " at error correction "@ + level_name(level),
                )
            })
        }),
{
}

/// A canvas that is too small is told the least size that has room, unless that is
/// no number of 32 bits.
pub proof fn law_the_least_canvas_is_told(symbol: Symbol, size: nat, min_module_size: nat)
    requires
        size < min_module_size * (symbol.0 + 8),
    ensures
        ({
            let least = (symbol.0 + 8) * min_module_size;
            let drawn = drawn_symbol(symbol, size, min_module_size);
            let told = |text: Seq<char>|
                drawn == Err::<Raster, RenderFault>(RenderFault::Layout(text));
            &&& least > 0xffff_ffff ==> told("QR code minimum module size is too large"@)
            &&& least <= 0xffff_ffff ==> told(
                "QR code requires at least "@ + decimal(least as nat)
                    + " pixels for its symbol, quiet zone, and min_module_size "@ + decimal(
                    min_module_size,
                ) + ", but size is "@ + decimal(size),
            )
        }),
{
    law_symbols_need_room(symbol, size, min_module_size);
}

} // verus!

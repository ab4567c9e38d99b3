//! Printable widths of the tapes.

use vstd::prelude::*;

verus! {

/// Printable width of one tape at one print resolution.
#[derive(Debug, Clone, Copy, PartialEq, Eq, Structural)]
pub struct TapeInfo {
    /// Width of the tape in millimeters.
    pub width_mm: u8,
    /// Print resolution that `pixels` holds for.
    pub dpi: u16,
    /// Printable dots across the tape.
    pub pixels: u16,
}

/// The first entry of `tapes` for the given width and resolution.
pub open spec fn tape_entry(tapes: Seq<TapeInfo>, width_mm: u8, dpi: u16) -> Option<TapeInfo>
    decreases tapes.len(),
{
    if tapes.len() == 0 {
        None
    } else if tapes[0].width_mm == width_mm && tapes[0].dpi == dpi {
        Some(tapes[0])
    } else {
        tape_entry(tapes.drop_first(), width_mm, dpi)
    }
}

/// The printable dots across a tape, where the tape is known.
pub open spec fn tape_dots(tapes: Seq<TapeInfo>, width_mm: u8, dpi: u16) -> Option<u16> {
    match tape_entry(tapes, width_mm, dpi) {
        Some(tape) => Some(tape.pixels),
        None => None,
    }
}

/// Looks a tape up by its width and the print resolution.
pub fn find_tape(tapes: &Vec<TapeInfo>, width_mm: u8, dpi: u16) -> (found: Option<TapeInfo>)
    ensures
        found == tape_entry(tapes@, width_mm, dpi),
{
    let mut i: usize = 0;
    assert(tapes@.skip(0) =~= tapes@);
    while i < tapes.len()
        invariant
            i <= tapes@.len(),
            tape_entry(tapes@, width_mm, dpi) == tape_entry(tapes@.skip(i as int), width_mm, dpi),
        decreases tapes@.len() - i,
    {
        assert(tapes@.skip(i as int).drop_first() =~= tapes@.skip(i + 1));
        if tapes[i].width_mm == width_mm && tapes[i].dpi == dpi {
            return Some(tapes[i]);
        }
        i = i + 1;
    }
    None
}

/// Looks up the printable dots across a tape.
pub fn tape_pixels(tapes: &Vec<TapeInfo>, width_mm: u8, dpi: u16) -> (dots: Option<u16>)
    ensures
        dots == tape_dots(tapes@, width_mm, dpi),
{
    match find_tape(tapes, width_mm, dpi) {
        Some(tape) => Some(tape.pixels),
        None => None,
    }
}

} // verus!

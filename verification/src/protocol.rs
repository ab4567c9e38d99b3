//! Print jobs and the commands around them.

use vstd::prelude::*;

verus! {

/// Print quality modes.
#[derive(Debug, Clone, Copy, PartialEq, Eq, Structural)]
pub enum PrintQuality {
    /// The mode that every printer has.
    Standard,
    /// Finer feed steps, on printers that have quality modes.
    High,
}

/// Options of one print job.
#[derive(Debug, Clone, Copy, PartialEq, Eq, Structural)]
pub struct JobOptions {
    /// Width of the loaded tape in millimeters, 0 where it is unknown.
    pub media_width: u8,
    /// Leave the tape uncut behind the job.
    pub chain_print: bool,
    /// Cut ahead of the job, on printers that can.
    pub precut: bool,
    pub quality: PrintQuality,
}

/// A command to the printer.
#[derive(Debug, PartialEq, Eq)]
pub enum Command {
    /// Reset: 100 zero bytes and `ESC @`.
    Init,
    /// Ask for a status packet.
    StatusRequest,
    /// Switch the notification of phase changes on or off.
    AutoStatusNotification(bool),
    /// One chunk of a print job, as it goes over the wire.
    Chunk(Vec<u8>),
}

/// Mathematical value of a [`Command`].
pub enum CommandModel {
    Init,
    StatusRequest,
    AutoStatusNotification(bool),
    Chunk(Seq<u8>),
}

impl View for Command {
    type V = CommandModel;

    open spec fn view(&self) -> CommandModel {
        match *self {
            Command::Init => CommandModel::Init,
            Command::StatusRequest => CommandModel::StatusRequest,
            Command::AutoStatusNotification(on) => CommandModel::AutoStatusNotification(on),
            Command::Chunk(bytes) => CommandModel::Chunk(bytes@),
        }
    }
}

/// Bytes of one raster line across a head of `max_px` dots, eight dots each.
pub open spec fn raster_line_len(max_px: u16) -> nat {
    ((max_px + 7) / 8) as nat
}

/// A raster line without a dot.
pub fn rasterline_blank(max_px: u16) -> (line: Vec<u8>)
    ensures
        line@ == Seq::new(raster_line_len(max_px), |i: int| 0u8),
{
    let len: usize = (max_px as usize + 7) / 8;
    let mut line: Vec<u8> = Vec::new();
    while line.len() < len
        invariant
            len == raster_line_len(max_px),
            line@.len() <= len,
            forall|i: int| 0 <= i < line@.len() ==> line@[i] == 0u8,
        decreases len - line@.len(),
    {
        line.push(0);
    }
    line
}

/// Number of zero bytes that a reset starts with.
pub const INIT_PADDING: usize = 100;

/// The bytes of a reset: zeros that end whatever the printer waits for, and
/// `ESC @`.
pub open spec fn init_bytes() -> Seq<u8> {
    Seq::new(INIT_PADDING as nat, |i: int| 0u8) + seq![0x1b, 0x40]
}

/// The bytes of [`Command::Init`].
pub fn cmd_init() -> (bytes: Vec<u8>)
    ensures
        bytes@ == init_bytes(),
{
    let mut bytes: Vec<u8> = Vec::new();
    while bytes.len() < INIT_PADDING
        invariant
            bytes@.len() <= INIT_PADDING,
            forall|i: int| 0 <= i < bytes@.len() ==> bytes@[i] == 0,
        decreases INIT_PADDING - bytes@.len(),
    {
        bytes.push(0);
    }
    bytes.push(0x1b);
    bytes.push(0x40);
    assert(bytes@ =~= init_bytes());
    bytes
}

} // verus!

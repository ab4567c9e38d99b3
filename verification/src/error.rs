//! Error types of the printer transport and of the label renderer.

use vstd::prelude::*;

use crate::message::{decimal, push_decimal};

verus! {

/// What a USB transfer or request can fail with.
#[derive(Debug, Clone, Copy, PartialEq, Eq, Structural)]
pub enum UsbFault {
    Io,
    InvalidParam,
    Access,
    NoDevice,
    NotFound,
    Busy,
    Timeout,
    Overflow,
    Pipe,
    Interrupted,
    NoMem,
    NotSupported,
    BadDescriptor,
    Other,
}

/// Failure of an operation on a printer.
#[derive(Debug)]
pub enum PtouchError {
    /// No supported printer answers to the request.
    DeviceNotFound,
    /// The named device is in PLite mode and shows up as a drive.
    PLiteMode(String),
    /// The named device cannot print raster data.
    UnsupportedRaster(String),
    /// A transfer, or a whole exchange, took too long.
    Timeout,
    /// The USB stack reported a fault.
    UsbError(UsbFault),
    /// A transfer ended early.
    SendFailed(String),
    /// The printer's status is malformed or reports an error.
    StatusError(String),
    /// The printer has not been initialized.
    NotInitialized,
    /// The named device has no print quality modes.
    UnsupportedQuality(String),
}

/// Mathematical value of a [`PtouchError`].
pub enum PtouchFault {
    DeviceNotFound,
    PLiteMode(Seq<char>),
    UnsupportedRaster(Seq<char>),
    Timeout,
    UsbError(UsbFault),
    SendFailed(Seq<char>),
    StatusError(Seq<char>),
    NotInitialized,
    UnsupportedQuality(Seq<char>),
}

impl View for PtouchError {
    type V = PtouchFault;

    open spec fn view(&self) -> PtouchFault {
        match *self {
            PtouchError::DeviceNotFound => PtouchFault::DeviceNotFound,
            PtouchError::PLiteMode(name) => PtouchFault::PLiteMode(name@),
            PtouchError::UnsupportedRaster(name) => PtouchFault::UnsupportedRaster(name@),
            PtouchError::Timeout => PtouchFault::Timeout,
            PtouchError::UsbError(fault) => PtouchFault::UsbError(fault),
            PtouchError::SendFailed(text) => PtouchFault::SendFailed(text@),
            PtouchError::StatusError(text) => PtouchFault::StatusError(text@),
            PtouchError::NotInitialized => PtouchFault::NotInitialized,
            PtouchError::UnsupportedQuality(name) => PtouchFault::UnsupportedQuality(name@),
        }
    }
}

/// The fault that a failed USB request amounts to: a time limit that ran out
/// has its own kind.
pub open spec fn usb_fault(fault: UsbFault) -> PtouchFault {
    if fault == UsbFault::Timeout {
        PtouchFault::Timeout
    } else {
        PtouchFault::UsbError(fault)
    }
}

/// Tells a time limit that ran out from the other faults of the USB stack.
pub fn usb_error(fault: UsbFault) -> (error: PtouchError)
    ensures
        error@ == usb_fault(fault),
{
    if fault == UsbFault::Timeout {
        PtouchError::Timeout
    } else {
        PtouchError::UsbError(fault)
    }
}

/// Failure to render a label or a part of it.
#[derive(Debug)]
pub enum RenderError {
    /// The document or a request asks for a layout that cannot be drawn.
    Layout(String),
    /// Text cannot be rendered.
    Text(String),
    /// The document has a format version that is not supported.
    UnsupportedVersion(u32),
}

/// Mathematical value of a [`RenderError`].
pub enum RenderFault {
    Layout(Seq<char>),
    Text(Seq<char>),
    UnsupportedVersion(u32),
}

impl View for RenderError {
    type V = RenderFault;

    open spec fn view(&self) -> RenderFault {
        match *self {
            RenderError::Layout(text) => RenderFault::Layout(text@),
            RenderError::Text(text) => RenderFault::Text(text@),
            RenderError::UnsupportedVersion(version) => RenderFault::UnsupportedVersion(version),
        }
    }
}

impl Clone for RenderError {
    fn clone(&self) -> (error: Self)
        ensures
            error@ == self@,
    {
        match self {
            RenderError::Layout(text) => RenderError::Layout(text.clone()),
            RenderError::Text(text) => RenderError::Text(text.clone()),
            RenderError::UnsupportedVersion(version) => RenderError::UnsupportedVersion(*version),
        }
    }
}

/// What a fault is reported as.
pub open spec fn fault_message(fault: RenderFault) -> Seq<char> {
    match fault {
        RenderFault::Layout(text) => text,
        RenderFault::Text(text) => text,
        RenderFault::UnsupportedVersion(version) => "unsupported document version "@ + decimal(
            version as nat,
        ),
    }
}

impl RenderError {
    /// What the error is reported as.
    pub fn message(&self) -> (message: String)
        ensures
            message@ == fault_message(self@),
    {
        match self {
            RenderError::Layout(text) => text.clone(),
            RenderError::Text(text) => text.clone(),
            RenderError::UnsupportedVersion(version) => {
                let mut message = "unsupported document version ".to_string();
                push_decimal(&mut message, *version as u64);
                message
            },
        }
    }
}

/// A result with the mathematical value of its error.
pub open spec fn render_outcome<T>(result: Result<T, RenderError>) -> Result<T, RenderFault> {
    match result {
        Ok(value) => Ok(value),
        Err(error) => Err(error@),
    }
}

} // verus!

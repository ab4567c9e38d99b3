//! Verified core of a label printing suite for Brother P-Touch printers.

pub mod bitmap;
pub mod bitmap_laws;
pub mod device;
pub mod document;
pub mod editor_laws;
pub mod error;
pub mod exchange_laws;
pub mod gray;
pub mod layout;
pub mod layout_laws;
pub mod message;
pub mod placement_laws;
pub mod printer;
pub mod printer_laws;
pub mod protocol;
pub mod qr;
pub mod rotation;
pub mod state;
pub mod status;
pub mod symbol_laws;
pub mod tape;
pub mod text;
pub mod text_laws;
pub mod transport;

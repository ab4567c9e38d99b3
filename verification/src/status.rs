//! The status packet that a printer sends on request and after each phase.

use vstd::prelude::*;

verus! {

/// Length of a status packet in bytes.
pub const STATUS_PACKET_SIZE: usize = 32;

/// The fields of a status packet that the transport reads.
#[derive(Debug, Clone, Copy, PartialEq, Eq, Structural)]
pub struct PrinterStatus {
    /// First byte of the header, `0x80` in a valid packet.
    pub print_head_mark: u8,
    /// Length that the packet claims, `0x20` in a valid packet.
    pub size: u8,
    /// First set of error bits.
    pub error_information_1: u8,
    /// Second set of error bits.
    pub error_information_2: u8,
    /// Width of the loaded tape in millimeters, 0 without tape.
    pub media_width: u8,
    /// Kind of the loaded tape.
    pub media_type: u8,
    /// Reason for which the packet was sent.
    pub status_type: u8,
    /// Phase that the printer is in.
    pub phase_type: u8,
    /// High byte of the phase number.
    pub phase_number_hi: u8,
    /// Low byte of the phase number.
    pub phase_number_lo: u8,
}

/// The status that the first bytes of `packet` hold.
pub open spec fn packet_status(packet: Seq<u8>) -> PrinterStatus {
    PrinterStatus {
        print_head_mark: packet[0],
        size: packet[1],
        error_information_1: packet[8],
        error_information_2: packet[9],
        media_width: packet[10],
        media_type: packet[11],
        status_type: packet[18],
        phase_type: packet[19],
        phase_number_hi: packet[20],
        phase_number_lo: packet[21],
    }
}

/// `text` with `name` added behind a comma when `set` holds.
pub open spec fn listed(text: Seq<char>, set: bool, name: Seq<char>) -> Seq<char> {
    if !set {
        text
    } else if text.len() == 0 {
        name
    } else {
        text + ", "@ + name
    }
}

/// Adds `name` to the list in `text` when `set` holds.
fn list(text: &mut String, set: bool, name: &str)
    ensures
        final(text)@ == listed(old(text)@, set, name@),
{
    if set {
        if !text.as_str().is_empty() {
            text.append(", ");
        }
        text.append(name);
        assert(old(text)@.len() == 0 ==> text@ == name@);
    }
}

impl PrinterStatus {
    /// Whether the printer reports any error bit.
    pub open spec fn reports_error(self) -> bool {
        self.error_information_1 != 0 || self.error_information_2 != 0
    }

    /// The names of the error bits that are set, joined by commas.
    pub open spec fn error_names(self) -> Seq<char> {
        let e1 = self.error_information_1;
        let e2 = self.error_information_2;
        let t = Seq::<char>::empty();
        let t = listed(t, e1 & 0x01 != 0, "No media"@);
        let t = listed(t, e1 & 0x02 != 0, "End of media"@);
        let t = listed(t, e1 & 0x04 != 0, "Cutter jam"@);
        let t = listed(t, e1 & 0x08 != 0, "Weak batteries"@);
        let t = listed(t, e1 & 0x10 != 0, "Printer in use"@);
        let t = listed(t, e1 & 0x40 != 0, "High-voltage adapter"@);
        let t = listed(t, e2 & 0x01 != 0, "Replace media"@);
        let t = listed(t, e2 & 0x02 != 0, "Expansion buffer full"@);
        let t = listed(t, e2 & 0x04 != 0, "Communication error"@);
        let t = listed(t, e2 & 0x08 != 0, "Communication buffer full"@);
        let t = listed(t, e2 & 0x10 != 0, "Cover open"@);
        let t = listed(t, e2 & 0x20 != 0, "Overheating"@);
        let t = listed(t, e2 & 0x40 != 0, "Black marking not detected"@);
        let t = listed(t, e2 & 0x80 != 0, "System error"@);
        t
    }

    /// What is said of the errors: their names, or that none has a name.
    pub open spec fn error_text(self) -> Seq<char> {
        if self.error_names().len() == 0 {
            "Unknown error"@
        } else {
            self.error_names()
        }
    }

    /// Whether the printer has entered the phase in which it takes a page.
    pub open spec fn waits_to_receive(self) -> bool {
        self.status_type == 0x06 && self.phase_type == 0x00
    }

    /// Reads a status packet; bytes behind the first 32 are ignored.
    pub fn from_bytes(packet: &[u8]) -> (status: Option<PrinterStatus>)
        ensures
            status == (if packet@.len() < STATUS_PACKET_SIZE {
                None
            } else {
                Some(packet_status(packet@))
            }),
    {
        if packet.len() < STATUS_PACKET_SIZE {
            return None;
        }
        Some(PrinterStatus {
            print_head_mark: packet[0],
            size: packet[1],
            error_information_1: packet[8],
            error_information_2: packet[9],
            media_width: packet[10],
            media_type: packet[11],
            status_type: packet[18],
            phase_type: packet[19],
            phase_number_hi: packet[20],
            phase_number_lo: packet[21],
        })
    }

    /// Whether the printer reports any error bit.
    pub fn has_error(&self) -> (r: bool)
        ensures
            r == self.reports_error(),
    {
        self.error_information_1 != 0 || self.error_information_2 != 0
    }

    /// Names the reported errors.
    pub fn error_description(&self) -> (text: String)
        ensures
            text@ == self.error_text(),
    {
        let e1: u8 = self.error_information_1;
        let e2: u8 = self.error_information_2;
        let mut text = String::new();
        list(&mut text, e1 & 0x01 != 0, "No media");
        list(&mut text, e1 & 0x02 != 0, "End of media");
        list(&mut text, e1 & 0x04 != 0, "Cutter jam");
        list(&mut text, e1 & 0x08 != 0, "Weak batteries");
        list(&mut text, e1 & 0x10 != 0, "Printer in use");
        list(&mut text, e1 & 0x40 != 0, "High-voltage adapter");
        list(&mut text, e2 & 0x01 != 0, "Replace media");
        list(&mut text, e2 & 0x02 != 0, "Expansion buffer full");
        list(&mut text, e2 & 0x04 != 0, "Communication error");
        list(&mut text, e2 & 0x08 != 0, "Communication buffer full");
        list(&mut text, e2 & 0x10 != 0, "Cover open");
        list(&mut text, e2 & 0x20 != 0, "Overheating");
        list(&mut text, e2 & 0x40 != 0, "Black marking not detected");
        list(&mut text, e2 & 0x80 != 0, "System error");
        if text.as_str().is_empty() {
            text = "Unknown error".to_string();
        }
        text
    }

    /// Whether the printer is ready to take the next page.
    pub fn is_waiting_to_receive(&self) -> (r: bool)
        ensures
            r == self.waits_to_receive(),
    {
        self.status_type == 0x06 && self.phase_type == 0x00
    }
}

} // verus!

//! The status reply: the 32-byte frame a printer answers with, and its decoding.
//!
//! | offset | content |
//! |---|---|
//! | 0, 1, 2, 3 | fixed: `80 20 42 34` |
//! | 4 | model code |
//! | 5 | fixed: `30` |
//! | 6 | differs between printers, not looked at |
//! | 7 | fixed: `00` |
//! | 8, 9 | error flags, low byte first |
//! | 10 | media width in millimetres |
//! | 11 | media type, `00` without media |
//! | 12, 13 | fixed: `00 00` |
//! | 14 | differs between printers, not looked at |
//! | 15 | various-mode byte, of which bit 6 (auto-cut) is decoded |
//! | 16 | fixed: `00` |
//! | 17 | media length in millimetres |
//! | 18 | status type |
//! | 19, 20, 21 | phase |
//! | 22 | notification |
//! | 23, 24 | fixed: `00 00` |
//! | 25 to 31 | not specified, not looked at |

use vstd::prelude::*;
use vstd::string::StringExecFns;
use crate::commands::VariousModeSettings;
use crate::error::StatusParsingError;
use crate::media::LabelType;
use crate::printer::PrinterModel;
use crate::text::{decimal, decimal_text, hex_byte, hex_digits, hex_text, push_hex, with_hex};

verus! {

/// Length of a status reply in bytes.
pub const STATUS_LEN: usize = 32;

/// One error condition a printer can report.
#[derive(Debug, Clone, Copy, PartialEq, Eq, Structural)]
pub enum ErrorFlag {
    /// No media is loaded.
    NoMediaError,
    /// The end of the media was reached (die-cut labels only).
    EndOfMediaError,
    /// The cutter is jammed.
    CutterJamError,
    /// The printer is in use.
    PrinterInUseError,
    /// The printer was turned off.
    PrinterTurnedOffError,
    /// High voltage adapter (not used by the printers).
    HighVoltageAdapterError,
    /// Fan motor (not used by the printers).
    FanMotorError,
    /// The media has to be replaced.
    ReplaceMediaError,
    /// The expansion buffer is full.
    ExpansionBufferFullError,
    /// A communication error occurred.
    CommunicationError,
    /// The communication buffer is full (not used by the printers).
    CommunicationBufferFullError,
    /// The cover is open.
    CoverOpenError,
    /// The cancel key was pressed (not used by the printers).
    CancelKeyError,
    /// The media cannot be fed, or has ended.
    FeedingError,
    /// A system error occurred.
    SystemError,
}

impl ErrorFlag {
    /// Position of the flag's bit in the 16-bit error field.
    pub open spec fn spec_bit(self) -> u8 {
        match self {
            ErrorFlag::NoMediaError => 0,
            ErrorFlag::EndOfMediaError => 1,
            ErrorFlag::CutterJamError => 2,
            ErrorFlag::PrinterInUseError => 4,
            ErrorFlag::PrinterTurnedOffError => 5,
            ErrorFlag::HighVoltageAdapterError => 6,
            ErrorFlag::FanMotorError => 7,
            ErrorFlag::ReplaceMediaError => 8,
            ErrorFlag::ExpansionBufferFullError => 9,
            ErrorFlag::CommunicationError => 10,
            ErrorFlag::CommunicationBufferFullError => 11,
            ErrorFlag::CoverOpenError => 12,
            ErrorFlag::CancelKeyError => 13,
            ErrorFlag::FeedingError => 14,
            ErrorFlag::SystemError => 15,
        }
    }

    /// Position of the flag's bit in the 16-bit error field.
    #[verifier::when_used_as_spec(spec_bit)]
    pub fn bit(self) -> (bit: u8)
        ensures
            bit == self.spec_bit(),
            bit < 16,
    {
        match self {
            ErrorFlag::NoMediaError => 0,
            ErrorFlag::EndOfMediaError => 1,
            ErrorFlag::CutterJamError => 2,
            ErrorFlag::PrinterInUseError => 4,
            ErrorFlag::PrinterTurnedOffError => 5,
            ErrorFlag::HighVoltageAdapterError => 6,
            ErrorFlag::FanMotorError => 7,
            ErrorFlag::ReplaceMediaError => 8,
            ErrorFlag::ExpansionBufferFullError => 9,
            ErrorFlag::CommunicationError => 10,
            ErrorFlag::CommunicationBufferFullError => 11,
            ErrorFlag::CoverOpenError => 12,
            ErrorFlag::CancelKeyError => 13,
            ErrorFlag::FeedingError => 14,
            ErrorFlag::SystemError => 15,
        }
    }
}

/// Whether bit `bit` of a 16-bit value is set.
pub open spec fn bit_is_set(bits: u16, bit: u8) -> bool {
    (bits >> bit) & 1 == 1
}

/// The error field of a status reply.
///
/// All sixteen bits are kept as the printer sent them, also those that stand
/// for no known error.
#[derive(Debug, Clone, Copy, PartialEq, Eq, Structural)]
pub struct ErrorFlags {
    /// The sixteen bits, bit 0 being the lowest bit of the first byte.
    pub bits: u16,
}

impl ErrorFlags {
    /// The flags with exactly the given bits.
    pub fn from_bits_retain(bits: u16) -> (flags: ErrorFlags)
        ensures
            flags.bits == bits,
    {
        ErrorFlags { bits }
    }

    /// The sixteen bits.
    pub fn bits(self) -> (bits: u16)
        ensures
            bits == self.bits,
    {
        self.bits
    }

    /// Whether no bit is set.
    pub fn is_empty(self) -> (empty: bool)
        ensures
            empty == (self.bits == 0),
    {
        self.bits == 0
    }

    /// The error field in writing, as a sequence of characters.
    pub open spec fn spec_describe(self) -> Seq<char> {
        "ErrorFlags("@ + crate::text::hex_word_text(self.bits) + ")"@
    }

    /// The error field in writing: its sixteen bits in hexadecimal, as in
    /// `ErrorFlags(0x1001)`.
    pub fn describe(self) -> (text: String)
        ensures
            text@ == self.spec_describe(),
    {
        let mut text = "ErrorFlags(".to_string();
        text.append(crate::text::hex_word(self.bits).as_str());
        text.append(")");
        text
    }

    /// Whether the given error is reported.
    pub open spec fn spec_contains(self, flag: ErrorFlag) -> bool {
        bit_is_set(self.bits, flag.spec_bit())
    }

    /// Whether the given error is reported.
    #[verifier::when_used_as_spec(spec_contains)]
    pub fn contains(self, flag: ErrorFlag) -> (res: bool)
        ensures
            res == self.spec_contains(flag),
    {
        let bit = flag.bit();
        (self.bits >> bit) & 1 == 1
    }
}

/// What a status reply reports.
#[derive(Debug, Clone, Copy, PartialEq, Eq, Structural)]
pub enum StatusType {
    /// The answer to a status request.
    StatusRequestReply,
    /// A page has been printed.
    PrintingCompleted,
    /// An error has occurred.
    ErrorOccurred,
    /// The printer was turned off.
    TurnedOff,
    /// A notification.
    Notification,
    /// The printer went from one phase to the other.
    PhaseChange,
}

impl StatusType {
    /// The byte that stands for this status type.
    pub open spec fn spec_code(self) -> u8 {
        match self {
            StatusType::StatusRequestReply => 0x00,
            StatusType::PrintingCompleted => 0x01,
            StatusType::ErrorOccurred => 0x02,
            StatusType::TurnedOff => 0x04,
            StatusType::Notification => 0x05,
            StatusType::PhaseChange => 0x06,
        }
    }

    /// The byte that stands for this status type.
    #[verifier::when_used_as_spec(spec_code)]
    pub fn code(self) -> (code: u8)
        ensures
            code == self.spec_code(),
    {
        match self {
            StatusType::StatusRequestReply => 0x00,
            StatusType::PrintingCompleted => 0x01,
            StatusType::ErrorOccurred => 0x02,
            StatusType::TurnedOff => 0x04,
            StatusType::Notification => 0x05,
            StatusType::PhaseChange => 0x06,
        }
    }

    /// The name of the status type, as a sequence of characters.
    pub open spec fn spec_name(self) -> Seq<char> {
        match self {
            StatusType::StatusRequestReply => "StatusRequestReply"@,
            StatusType::PrintingCompleted => "PrintingCompleted"@,
            StatusType::ErrorOccurred => "ErrorOccurred"@,
            StatusType::TurnedOff => "TurnedOff"@,
            StatusType::Notification => "Notification"@,
            StatusType::PhaseChange => "PhaseChange"@,
        }
    }

    /// The name of the status type.
    pub fn name(self) -> (name: String)
        ensures
            name@ == self.spec_name(),
    {
        match self {
            StatusType::StatusRequestReply => "StatusRequestReply".to_string(),
            StatusType::PrintingCompleted => "PrintingCompleted".to_string(),
            StatusType::ErrorOccurred => "ErrorOccurred".to_string(),
            StatusType::TurnedOff => "TurnedOff".to_string(),
            StatusType::Notification => "Notification".to_string(),
            StatusType::PhaseChange => "PhaseChange".to_string(),
        }
    }

    /// The status type a byte stands for, if any.
    pub open spec fn from_code(value: u8) -> Option<StatusType> {
        if value == 0x00 {
            Some(StatusType::StatusRequestReply)
        } else if value == 0x01 {
            Some(StatusType::PrintingCompleted)
        } else if value == 0x02 {
            Some(StatusType::ErrorOccurred)
        } else if value == 0x04 {
            Some(StatusType::TurnedOff)
        } else if value == 0x05 {
            Some(StatusType::Notification)
        } else if value == 0x06 {
            Some(StatusType::PhaseChange)
        } else {
            None
        }
    }

    /// Why a byte that stands for no status type is rejected: the bytes from
    /// `0x08` to `0x20` are unused, those from `0x21` on reserved, and `0x03`
    /// and `0x07` are simply invalid.
    pub open spec fn rejection(value: u8) -> Seq<char> {
        if 0x08 <= value <= 0x20 {
            hex_text(value) + " is an unused status type"@
        } else if 0x21 <= value {
            hex_text(value) + " is a reserved status type"@
        } else {
            "invalid status type "@ + hex_text(value)
        }
    }

    /// Decodes the status type byte of a status reply.
    pub fn try_from(value: u8) -> (res: Result<StatusType, StatusParsingError>)
        ensures
            match res {
                Ok(status_type) => StatusType::from_code(value) == Some(status_type),
                Err(e) => StatusType::from_code(value).is_none() && e.reason@
                    == StatusType::rejection(value),
            },
    {
        if value == 0x00 {
            Ok(StatusType::StatusRequestReply)
        } else if value == 0x01 {
            Ok(StatusType::PrintingCompleted)
        } else if value == 0x02 {
            Ok(StatusType::ErrorOccurred)
        } else if value == 0x04 {
            Ok(StatusType::TurnedOff)
        } else if value == 0x05 {
            Ok(StatusType::Notification)
        } else if value == 0x06 {
            Ok(StatusType::PhaseChange)
        } else if 0x08 <= value && value <= 0x20 {
            let mut reason = hex_byte(value);
            reason.append(" is an unused status type");
            Err(StatusParsingError { reason })
        } else if 0x21 <= value {
            let mut reason = hex_byte(value);
            reason.append(" is a reserved status type");
            Err(StatusParsingError { reason })
        } else {
            Err(StatusParsingError { reason: with_hex("invalid status type ", value) })
        }
    }
}

/// What the printer is doing.
#[derive(Debug, Clone, Copy, PartialEq, Eq, Structural)]
pub enum Phase {
    /// Waiting for data.
    Receiving,
    /// Printing a page.
    Printing,
}

impl Phase {
    /// The first of the three bytes that stand for this phase; the other two are zero.
    pub open spec fn spec_code(self) -> u8 {
        match self {
            Phase::Receiving => 0x00,
            Phase::Printing => 0x01,
        }
    }

    /// The first of the three bytes that stand for this phase; the other two are zero.
    #[verifier::when_used_as_spec(spec_code)]
    pub fn code(self) -> (code: u8)
        ensures
            code == self.spec_code(),
    {
        match self {
            Phase::Receiving => 0x00,
            Phase::Printing => 0x01,
        }
    }

    /// The name of the phase, as a sequence of characters.
    pub open spec fn spec_name(self) -> Seq<char> {
        match self {
            Phase::Receiving => "Receiving"@,
            Phase::Printing => "Printing"@,
        }
    }

    /// The name of the phase.
    pub fn name(self) -> (name: String)
        ensures
            name@ == self.spec_name(),
    {
        match self {
            Phase::Receiving => "Receiving".to_string(),
            Phase::Printing => "Printing".to_string(),
        }
    }

    /// The phase three bytes stand for, if any.
    pub open spec fn from_bytes(a: u8, b: u8, c: u8) -> Option<Phase> {
        if a == 0x00 && b == 0x00 && c == 0x00 {
            Some(Phase::Receiving)
        } else if a == 0x01 && b == 0x00 && c == 0x00 {
            Some(Phase::Printing)
        } else {
            None
        }
    }

    /// Why three bytes that stand for no phase are rejected.
    pub open spec fn rejection(a: u8, b: u8, c: u8) -> Seq<char> {
        "invalid phase state "@ + hex_text(a) + hex_digits(b) + hex_digits(c)
    }

    /// Decodes the three phase bytes of a status reply.
    pub fn try_from(value: [u8; 3]) -> (res: Result<Phase, StatusParsingError>)
        ensures
            match res {
                Ok(phase) => Phase::from_bytes(value@[0], value@[1], value@[2]) == Some(phase),
                Err(e) => Phase::from_bytes(value@[0], value@[1], value@[2]).is_none() && e.reason@
                    == Phase::rejection(value@[0], value@[1], value@[2]),
            },
    {
        let a = value[0];
        let b = value[1];
        let c = value[2];
        if a == 0x00 && b == 0x00 && c == 0x00 {
            Ok(Phase::Receiving)
        } else if a == 0x01 && b == 0x00 && c == 0x00 {
            Ok(Phase::Printing)
        } else {
            let mut reason = with_hex("invalid phase state ", a);
            push_hex(&mut reason, b);
            push_hex(&mut reason, c);
            Err(StatusParsingError { reason })
        }
    }
}

/// What the printer wants its host to know besides its state.
#[derive(Debug, Clone, Copy, PartialEq, Eq, Structural)]
pub enum Notification {
    /// Nothing.
    Unavailable,
    /// The print head has started to cool down.
    CoolingStarted,
    /// The print head has cooled down.
    CoolingFinished,
}

impl Notification {
    /// The byte that stands for this notification.
    pub open spec fn spec_code(self) -> u8 {
        match self {
            Notification::Unavailable => 0x00,
            Notification::CoolingStarted => 0x03,
            Notification::CoolingFinished => 0x04,
        }
    }

    /// The byte that stands for this notification.
    #[verifier::when_used_as_spec(spec_code)]
    pub fn code(self) -> (code: u8)
        ensures
            code == self.spec_code(),
    {
        match self {
            Notification::Unavailable => 0x00,
            Notification::CoolingStarted => 0x03,
            Notification::CoolingFinished => 0x04,
        }
    }

    /// The notification a byte stands for, if any.
    pub open spec fn from_code(value: u8) -> Option<Notification> {
        if value == 0x00 {
            Some(Notification::Unavailable)
        } else if value == 0x03 {
            Some(Notification::CoolingStarted)
        } else if value == 0x04 {
            Some(Notification::CoolingFinished)
        } else {
            None
        }
    }

    /// Why a byte that stands for no notification is rejected.
    pub open spec fn rejection(value: u8) -> Seq<char> {
        "invalid notification number "@ + hex_text(value)
    }

    /// Decodes the notification byte of a status reply.
    pub fn try_from(value: u8) -> (res: Result<Notification, StatusParsingError>)
        ensures
            match res {
                Ok(notification) => Notification::from_code(value) == Some(notification),
                Err(e) => Notification::from_code(value).is_none() && e.reason@
                    == Notification::rejection(value),
            },
    {
        if value == 0x00 {
            Ok(Notification::Unavailable)
        } else if value == 0x03 {
            Ok(Notification::CoolingStarted)
        } else if value == 0x04 {
            Ok(Notification::CoolingFinished)
        } else {
            Err(StatusParsingError { reason: with_hex("invalid notification number ", value) })
        }
    }
}

/// A decoded status reply.
#[derive(Debug, Clone, Copy, PartialEq, Eq, Structural)]
pub struct StatusInformation {
    /// The printer model.
    pub model: PrinterModel,
    /// The errors the printer reports.
    pub errors: ErrorFlags,
    /// Width of the loaded media in millimetres.
    pub media_width: u8,
    /// Type of the loaded media; `None` without media.
    pub media_type: Option<LabelType>,
    /// The settings of the various-mode byte.
    pub mode: VariousModeSettings,
    /// Length of the loaded media in millimetres, zero for a continuous roll.
    pub media_length: u8,
    /// What the reply reports.
    pub status_type: StatusType,
    /// What the printer is doing.
    pub phase: Phase,
    /// What else the printer lets its host know.
    pub notification: Notification,
}

/// The value a status reply must hold at `offset`, where that is fixed.
pub open spec fn fixed_field(offset: int) -> Option<u8> {
    if offset == 0 {
        Some(0x80u8)
    } else if offset == 1 {
        Some(0x20u8)
    } else if offset == 2 {
        Some(0x42u8)
    } else if offset == 3 {
        Some(0x34u8)
    } else if offset == 5 {
        Some(0x30u8)
    } else if offset == 7 || offset == 12 || offset == 13 || offset == 16 || offset == 23 || offset
        == 24 {
        Some(0x00u8)
    } else {
        None
    }
}

/// Whether every fixed field of a 32-byte frame holds its value.
pub open spec fn fixed_fields_hold(frame: Seq<u8>) -> bool {
    forall|offset: int|
        0 <= offset < STATUS_LEN && fixed_field(offset).is_some() ==> Some(#[trigger] frame[offset])
            == fixed_field(offset)
}

/// The media type a media type byte stands for: none for `00`, else the label type.
pub open spec fn media_type_of(value: u8) -> Option<Option<LabelType>> {
    if value == 0x00 {
        Some(None)
    } else {
        match LabelType::from_code(value) {
            Some(label_type) => Some(Some(label_type)),
            None => None,
        }
    }
}

/// The byte a media type is reported as.
pub open spec fn media_type_code(media_type: Option<LabelType>) -> u8 {
    match media_type {
        Some(label_type) => label_type.spec_code(),
        None => 0x00,
    }
}

/// The error flags two bytes stand for, the low byte coming first.
pub open spec fn error_bits(low: u8, high: u8) -> u16 {
    (low + 256 * high) as u16
}

/// The byte the various-mode settings are written as: bit 6 alone.
pub open spec fn mode_code(mode: VariousModeSettings) -> u8 {
    if mode.auto_cut {
        0x40
    } else {
        0x00
    }
}

/// What a frame decodes to: `None` where it is no valid status reply.
///
/// A valid reply has 32 bytes, the fixed fields hold their values, and the
/// model code, the media type, the status type, the phase and the
/// notification each are one of the known values. The error flags, the media
/// width and length and the various-mode byte can hold anything; of the
/// various-mode byte only bit 6 is decoded.
pub open spec fn decode_status(frame: Seq<u8>) -> Option<StatusInformation> {
    if frame.len() != STATUS_LEN || !fixed_fields_hold(frame) {
        None
    } else {
        match (
            PrinterModel::from_model_code(frame[4]),
            media_type_of(frame[11]),
            StatusType::from_code(frame[18]),
            Phase::from_bytes(frame[19], frame[20], frame[21]),
            Notification::from_code(frame[22]),
        ) {
            (
                Some(model),
                Some(media_type),
                Some(status_type),
                Some(phase),
                Some(notification),
            ) => Some(
                StatusInformation {
                    model,
                    errors: ErrorFlags { bits: error_bits(frame[8], frame[9]) },
                    media_width: frame[10],
                    media_type,
                    mode: VariousModeSettings::spec_from_byte(frame[15]),
                    media_length: frame[17],
                    status_type,
                    phase,
                    notification,
                },
            ),
            _ => None,
        }
    }
}

/// Why a frame with a wrong value in a fixed field is rejected.
pub open spec fn fixed_field_rejection(frame: Seq<u8>, offset: int, name: Seq<char>) -> Seq<char> {
    "expected value "@ + hex_text(fixed_field(offset).unwrap()) + " for field "@ + name
        + " at offset "@ + decimal_text(offset as nat) + " but was "@ + hex_text(frame[offset])
}

/// The name of the fixed field at `offset`, as it appears in a rejection.
pub open spec fn fixed_field_name(offset: int) -> Seq<char> {
    if offset == 0 {
        "Print head mark"@
    } else if offset == 1 {
        "Size"@
    } else if offset == 3 {
        "Series code"@
    } else {
        "Reserved"@
    }
}

/// Whether the fixed field at `offset` holds its value.
pub open spec fn fixed_field_holds(frame: Seq<u8>, offset: int) -> bool {
    Some(frame[offset]) == fixed_field(offset)
}

/// Why a frame is rejected: the first thing wrong with it, going through the
/// frame from its start. Meaningful for the frames that do not decode.
pub open spec fn status_rejection(frame: Seq<u8>) -> Seq<char> {
    if frame.len() != STATUS_LEN {
        "invalid size of "@ + decimal_text(frame.len()) + "B"@
    } else if !fixed_field_holds(frame, 0) {
        fixed_field_rejection(frame, 0, fixed_field_name(0))
    } else if !fixed_field_holds(frame, 1) {
        fixed_field_rejection(frame, 1, fixed_field_name(1))
    } else if !fixed_field_holds(frame, 2) {
        fixed_field_rejection(frame, 2, fixed_field_name(2))
    } else if !fixed_field_holds(frame, 3) {
        fixed_field_rejection(frame, 3, fixed_field_name(3))
    } else if PrinterModel::from_model_code(frame[4]).is_none() {
        PrinterModel::rejection(frame[4])
    } else if !fixed_field_holds(frame, 5) {
        fixed_field_rejection(frame, 5, fixed_field_name(5))
    } else if !fixed_field_holds(frame, 7) {
        fixed_field_rejection(frame, 7, fixed_field_name(7))
    } else if media_type_of(frame[11]).is_none() {
        LabelType::rejection(frame[11])
    } else if !fixed_field_holds(frame, 12) {
        fixed_field_rejection(frame, 12, fixed_field_name(12))
    } else if !fixed_field_holds(frame, 13) {
        fixed_field_rejection(frame, 13, fixed_field_name(13))
    } else if !fixed_field_holds(frame, 16) {
        fixed_field_rejection(frame, 16, fixed_field_name(16))
    } else if StatusType::from_code(frame[18]).is_none() {
        StatusType::rejection(frame[18])
    } else if Phase::from_bytes(frame[19], frame[20], frame[21]).is_none() {
        Phase::rejection(frame[19], frame[20], frame[21])
    } else if Notification::from_code(frame[22]).is_none() {
        Notification::rejection(frame[22])
    } else if !fixed_field_holds(frame, 23) {
        fixed_field_rejection(frame, 23, fixed_field_name(23))
    } else {
        fixed_field_rejection(frame, 24, fixed_field_name(24))
    }
}

/// Compares one fixed field of a reply with the value it must hold.
fn check_fixed_field(status: &[u8], offset: usize, name: &str, expected: u8) -> (res: Result<
    (),
    StatusParsingError,
>)
    requires
        offset < status@.len(),
        fixed_field(offset as int) == Some(expected),
    ensures
        match res {
            Ok(_) => fixed_field_holds(status@, offset as int),
            Err(e) => !fixed_field_holds(status@, offset as int) && e.reason@
                == fixed_field_rejection(status@, offset as int, name@),
        },
{
    if status[offset] != expected {
        let mut reason = with_hex("expected value ", expected);
        reason.append(" for field ");
        reason.append(name);
        reason.append(" at offset ");
        reason.append(decimal(offset as u64).as_str());
        reason.append(" but was ");
        reason.append(hex_byte(status[offset]).as_str());
        return Err(StatusParsingError { reason });
    }
    Ok(())
}

impl StatusInformation {
    /// Whether the printer reports any error.
    pub open spec fn spec_has_errors(&self) -> bool {
        self.errors.bits != 0
    }

    /// Whether the printer reports any error: whether any of the sixteen
    /// error bits is set.
    #[verifier::when_used_as_spec(spec_has_errors)]
    pub fn has_errors(&self) -> (res: bool)
        ensures
            res == self.spec_has_errors(),
    {
        !self.errors.is_empty()
    }

    /// Decodes a status reply.
    ///
    /// Succeeds exactly on the frames that [`decode_status`] accepts, with the
    /// value it gives. The reason of a failure names the first thing found
    /// wrong, going through the frame from its start.
    pub fn try_from(value: &[u8]) -> (res: Result<StatusInformation, StatusParsingError>)
        ensures
            match res {
                Ok(status) => decode_status(value@) == Some(status),
                Err(e) => decode_status(value@).is_none() && e.reason@ == status_rejection(value@),
            },
    {
        if value.len() != STATUS_LEN {
            let mut reason = "invalid size of ".to_string();
            reason.append(decimal(value.len() as u64).as_str());
            reason.append("B");
            return Err(StatusParsingError { reason });
        }
        match check_fixed_field(value, 0, "Print head mark", 0x80) {
            Err(e) => return Err(e),
            Ok(_) => {},
        }
        match check_fixed_field(value, 1, "Size", 0x20) {
            Err(e) => return Err(e),
            Ok(_) => {},
        }
        match check_fixed_field(value, 2, "Reserved", 0x42) {
            Err(e) => return Err(e),
            Ok(_) => {},
        }
        match check_fixed_field(value, 3, "Series code", 0x34) {
            Err(e) => return Err(e),
            Ok(_) => {},
        }
        let model = match PrinterModel::try_from(value[4]) {
            Err(e) => return Err(e),
            Ok(model) => model,
        };
        match check_fixed_field(value, 5, "Reserved", 0x30) {
            Err(e) => return Err(e),
            Ok(_) => {},
        }
        match check_fixed_field(value, 7, "Reserved", 0x00) {
            Err(e) => return Err(e),
            Ok(_) => {},
        }
        let low = value[8];
        let high = value[9];
        let errors = ErrorFlags::from_bits_retain(low as u16 + 256 * (high as u16));
        let media_width = value[10];
        let media_type = if value[11] == 0x00 {
            None
        } else {
            match LabelType::try_from(value[11]) {
                Err(e) => return Err(e),
                Ok(label_type) => Some(label_type),
            }
        };
        match check_fixed_field(value, 12, "Reserved", 0x00) {
            Err(e) => return Err(e),
            Ok(_) => {},
        }
        match check_fixed_field(value, 13, "Reserved", 0x00) {
            Err(e) => return Err(e),
            Ok(_) => {},
        }
        // Only the auto-cut bit of the various-mode byte is decoded.
        let mode = VariousModeSettings::from_byte(value[15]);
        match check_fixed_field(value, 16, "Reserved", 0x00) {
            Err(e) => return Err(e),
            Ok(_) => {},
        }
        let media_length = value[17];
        let status_type = match StatusType::try_from(value[18]) {
            Err(e) => return Err(e),
            Ok(status_type) => status_type,
        };
        let phase = match Phase::try_from([value[19], value[20], value[21]]) {
            Err(e) => return Err(e),
            Ok(phase) => phase,
        };
        let notification = match Notification::try_from(value[22]) {
            Err(e) => return Err(e),
            Ok(notification) => notification,
        };
        match check_fixed_field(value, 23, "Reserved", 0x00) {
            Err(e) => return Err(e),
            Ok(_) => {},
        }
        match check_fixed_field(value, 24, "Reserved", 0x00) {
            Err(e) => return Err(e),
            Ok(_) => {},
        }
        // The remaining seven bytes are not specified at all.
        Ok(
            StatusInformation {
                model,
                errors,
                media_width,
                media_type,
                mode,
                media_length,
                status_type,
                phase,
                notification,
            },
        )
    }

    /// Whether a frame is a reply that reports this status: it has 32 bytes,
    /// its fixed fields hold their values, and each decoded field holds the
    /// code of this status. Of the various-mode byte only bit 6 counts. The
    /// bytes and bits that decoding does not look at are free.
    pub open spec fn reported_by(&self, frame: Seq<u8>) -> bool {
        &&& frame.len() == STATUS_LEN
        &&& fixed_fields_hold(frame)
        &&& frame[4] == self.model.spec_model_code()
        &&& frame[8] == self.errors.bits % 256
        &&& frame[9] == self.errors.bits / 256
        &&& frame[10] == self.media_width
        &&& frame[11] == media_type_code(self.media_type)
        &&& (frame[15] & 0x40 != 0) == self.mode.auto_cut
        &&& frame[17] == self.media_length
        &&& frame[18] == self.status_type.spec_code()
        &&& frame[19] == self.phase.spec_code()
        &&& frame[20] == 0
        &&& frame[21] == 0
        &&& frame[22] == self.notification.spec_code()
    }

    /// Builds a reply that reports this status, as a printer would send it.
    ///
    /// The bytes that decoding does not look at are set to zero, and so are
    /// the bits of the various-mode byte beside bit 6.
    pub fn to_frame(&self) -> (frame: Vec<u8>)
        ensures
            self.reported_by(frame@),
            frame@[15] == mode_code(self.mode),
            forall|offset: int|
                (offset == 6 || offset == 14 || 25 <= offset < STATUS_LEN) ==> frame@[offset] == 0,
    {
        assert(0x40u8 & 0x40 != 0 && 0x00u8 & 0x40 == 0) by (bit_vector);
        let media_type: u8 = match self.media_type {
            Some(label_type) => label_type.code(),
            None => 0x00,
        };
        let mode: u8 = if self.mode.auto_cut { 0x40 } else { 0x00 };
        let frame = vec![
            0x80,
            0x20,
            0x42,
            0x34,
            self.model.model_code(),
            0x30,
            0x00,
            0x00,
            (self.errors.bits % 256) as u8,
            (self.errors.bits / 256) as u8,
            self.media_width,
            media_type,
            0x00,
            0x00,
            0x00,
            mode,
            0x00,
            self.media_length,
            self.status_type.code(),
            self.phase.code(),
            0x00,
            0x00,
            self.notification.code(),
            0x00,
            0x00,
            0x00,
            0x00,
            0x00,
            0x00,
            0x00,
            0x00,
            0x00,
        ];
        frame
    }
}

/// The error field has no bit set exactly when none of its sixteen bits is set.
pub proof fn lemma_no_bits_no_errors(bits: u16)
    ensures
        bits == 0 <==> (forall|bit: u8| bit < 16 ==> !bit_is_set(bits, bit)),
{
    if bits == 0 {
        assert forall|bit: u8| bit < 16 implies !bit_is_set(bits, bit) by {
            assert((0u16 >> bit) & 1 != 1) by (bit_vector)
                requires
                    bit < 16,
            ;
        }
    } else {
        assert((bits >> 0u8) & 1 == 1 || (bits >> 1u8) & 1 == 1 || (bits >> 2u8) & 1 == 1 || (bits
            >> 3u8) & 1 == 1 || (bits >> 4u8) & 1 == 1 || (bits >> 5u8) & 1 == 1 || (bits >> 6u8) & 1
            == 1 || (bits >> 7u8) & 1 == 1 || (bits >> 8u8) & 1 == 1 || (bits >> 9u8) & 1 == 1 || (
        bits >> 10u8) & 1 == 1 || (bits >> 11u8) & 1 == 1 || (bits >> 12u8) & 1 == 1 || (bits
            >> 13u8) & 1 == 1 || (bits >> 14u8) & 1 == 1 || (bits >> 15u8) & 1 == 1) by (bit_vector)
            requires
                bits != 0,
        ;
        assert(bit_is_set(bits, 0) || bit_is_set(bits, 1) || bit_is_set(bits, 2) || bit_is_set(
            bits,
            3,
        ) || bit_is_set(bits, 4) || bit_is_set(bits, 5) || bit_is_set(bits, 6) || bit_is_set(bits, 7)
            || bit_is_set(bits, 8) || bit_is_set(bits, 9) || bit_is_set(bits, 10) || bit_is_set(
            bits,
            11,
        ) || bit_is_set(bits, 12) || bit_is_set(bits, 13) || bit_is_set(bits, 14) || bit_is_set(
            bits,
            15,
        ));
    }
}

/// A frame decodes to a status exactly when it is a reply that reports that
/// status: decoding gives back every field that went into the frame, and
/// nothing else decodes to it.
pub proof fn lemma_status_round_trip(status: StatusInformation, frame: Seq<u8>)
    ensures
        status.reported_by(frame) <==> decode_status(frame) == Some(status),
{
    if status.reported_by(frame) {
        assert(error_bits(frame[8], frame[9]) == status.errors.bits);
    }
    if decode_status(frame) == Some(status) {
        assert(frame.len() == STATUS_LEN);
        assert(status.errors.bits == error_bits(frame[8], frame[9]));
    }
}

/// A frame with a wrong value in any fixed field is rejected.
pub proof fn lemma_fixed_field_rejected(frame: Seq<u8>, offset: int)
    requires
        0 <= offset < STATUS_LEN,
        fixed_field(offset).is_some(),
        frame.len() != STATUS_LEN || Some(frame[offset]) != fixed_field(offset),
    ensures
        decode_status(frame).is_none(),
{
}

} // verus!

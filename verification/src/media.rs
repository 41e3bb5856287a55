//! The media catalogue: every label roll the printers accept, with its geometry.
//!
//! Names follow the rolls: a leading `C` is a continuous roll, a leading `D` a
//! roll of die-cut labels, and a trailing `R` marks the red/black roll. The
//! print head is 720 dots wide whatever the media; each media states how many
//! of those dots it covers and where they start.

use vstd::prelude::*;
use crate::error::StatusParsingError;
use crate::text::{hex_text, same_text, with_hex};

verus! {

/// Number of dots of the print head, and of every raster line.
pub const PRINT_HEAD_DOTS: u32 = 720;

/// Height in dots of the sample label drawn for a continuous roll.
pub const SAMPLE_LABEL_HEIGHT: u32 = 300;

/// Whether a roll is cut by the printer or comes pre-cut.
#[derive(Copy, Clone, Debug, PartialEq, Eq, Structural)]
pub enum LabelType {
    /// Continuous roll, cut to any length.
    Continuous,
    /// Pre-cut labels of a fixed length.
    DieCut,
}

impl LabelType {
    /// The byte that stands for this label type on the wire.
    pub open spec fn spec_code(self) -> u8 {
        match self {
            LabelType::Continuous => 0x0a,
            LabelType::DieCut => 0x0b,
        }
    }

    /// The byte that stands for this label type on the wire.
    #[verifier::when_used_as_spec(spec_code)]
    pub fn code(self) -> (code: u8)
        ensures
            code == self.spec_code(),
    {
        match self {
            LabelType::Continuous => 0x0a,
            LabelType::DieCut => 0x0b,
        }
    }

    /// The label type a wire byte stands for, if any.
    pub open spec fn from_code(value: u8) -> Option<LabelType> {
        if value == 0x0a {
            Some(LabelType::Continuous)
        } else if value == 0x0b {
            Some(LabelType::DieCut)
        } else {
            None
        }
    }

    /// Why a byte that stands for no label type is rejected.
    pub open spec fn rejection(value: u8) -> Seq<char> {
        "invalid media type code "@ + hex_text(value)
    }

    /// Decodes the media type byte of a status reply.
    ///
    /// The printers answer `0x0a` and `0x0b`; every other byte is rejected.
    pub fn try_from(value: u8) -> (res: Result<LabelType, StatusParsingError>)
        ensures
            match res {
                Ok(label_type) => LabelType::from_code(value) == Some(label_type),
                Err(e) => LabelType::from_code(value).is_none() && e.reason@
                    == LabelType::rejection(value),
            },
    {
        if value == 0x0a {
            Ok(LabelType::Continuous)
        } else if value == 0x0b {
            Ok(LabelType::DieCut)
        } else {
            Err(StatusParsingError { reason: with_hex("invalid media type code ", value) })
        }
    }
}

/// The media the printers accept.
#[derive(Copy, Clone, Debug, PartialEq, Eq, Hash, Structural)]
pub enum Media {
    /// Continuous tape, 12mm (106px) wide
    C12,
    /// Continuous tape, 29mm (306px) wide
    C29,
    /// Continuous tape, 38mm (413px) wide
    C38,
    /// Continuous tape, 50mm (554px) wide
    C50,
    /// Continuous tape, 54mm (590px) wide
    C54,
    /// Continuous tape, 62mm (696px) wide
    C62,
    /// Continuous tape, 62mm (696px) wide, red/black
    C62R,
    /// Die-cut labels, WxH 17x54mm (165x566px)
    D17x54,
    /// Die-cut labels, WxH 17x87mm (165x912px)
    D17x87,
    /// Die-cut labels, WxH 23x23mm (236x236px)
    D23x23,
    /// Die-cut labels, WxH 29x42mm (306x442px)
    D29x42,
    /// Die-cut labels, WxH 29x90mm (306x944px)
    D29x90,
    /// Die-cut labels, WxH 38x90mm (413x944px)
    D38x90,
    /// Die-cut labels, WxH 39x48mm (425x512px)
    D39x48,
    /// Die-cut labels, WxH 52x29mm (578x318px)
    D52x29,
    /// Die-cut labels, WxH 54x29mm (602x318px)
    D54x29,
    /// Die-cut labels, WxH 60x86mm (672x902px)
    D60x86,
    /// Die-cut labels, WxH 62x29mm (696x318px)
    D62x29,
    /// Die-cut labels, WxH 62x100mm (696x1104px)
    D62x100,
    /// Die-cut labels, WxH 12x12mm (94x94px)
    D12,
    /// Die-cut labels, WxH 24x24mm (236x236px)
    D24,
    /// Die-cut labels, WxH 58x58mm (618x630px)
    D58,
}

impl Media {
    /// Whether the roll is continuous or die-cut.
    pub open spec fn spec_label_type(self) -> LabelType {
        match self {
            Media::C12 => LabelType::Continuous,
            Media::C29 => LabelType::Continuous,
            Media::C38 => LabelType::Continuous,
            Media::C50 => LabelType::Continuous,
            Media::C54 => LabelType::Continuous,
            Media::C62 => LabelType::Continuous,
            Media::C62R => LabelType::Continuous,
            Media::D17x54 => LabelType::DieCut,
            Media::D17x87 => LabelType::DieCut,
            Media::D23x23 => LabelType::DieCut,
            Media::D29x42 => LabelType::DieCut,
            Media::D29x90 => LabelType::DieCut,
            Media::D38x90 => LabelType::DieCut,
            Media::D39x48 => LabelType::DieCut,
            Media::D52x29 => LabelType::DieCut,
            Media::D54x29 => LabelType::DieCut,
            Media::D60x86 => LabelType::DieCut,
            Media::D62x29 => LabelType::DieCut,
            Media::D62x100 => LabelType::DieCut,
            Media::D12 => LabelType::DieCut,
            Media::D24 => LabelType::DieCut,
            Media::D58 => LabelType::DieCut,
        }
    }

    /// Whether the roll is continuous or die-cut.
    #[verifier::when_used_as_spec(spec_label_type)]
    pub fn label_type(self) -> (res: LabelType)
        ensures
            res == self.spec_label_type(),
    {
        match self {
            Media::C12 => LabelType::Continuous,
            Media::C29 => LabelType::Continuous,
            Media::C38 => LabelType::Continuous,
            Media::C50 => LabelType::Continuous,
            Media::C54 => LabelType::Continuous,
            Media::C62 => LabelType::Continuous,
            Media::C62R => LabelType::Continuous,
            Media::D17x54 => LabelType::DieCut,
            Media::D17x87 => LabelType::DieCut,
            Media::D23x23 => LabelType::DieCut,
            Media::D29x42 => LabelType::DieCut,
            Media::D29x90 => LabelType::DieCut,
            Media::D38x90 => LabelType::DieCut,
            Media::D39x48 => LabelType::DieCut,
            Media::D52x29 => LabelType::DieCut,
            Media::D54x29 => LabelType::DieCut,
            Media::D60x86 => LabelType::DieCut,
            Media::D62x29 => LabelType::DieCut,
            Media::D62x100 => LabelType::DieCut,
            Media::D12 => LabelType::DieCut,
            Media::D24 => LabelType::DieCut,
            Media::D58 => LabelType::DieCut,
        }
    }

    /// Width of the roll in millimetres, edge to edge.
    pub open spec fn spec_width_mm(self) -> u8 {
        match self {
            Media::C12 => 12,
            Media::C29 => 29,
            Media::C38 => 38,
            Media::C50 => 50,
            Media::C54 => 54,
            Media::C62 => 62,
            Media::C62R => 62,
            Media::D17x54 => 17,
            Media::D17x87 => 17,
            Media::D23x23 => 23,
            Media::D29x42 => 29,
            Media::D29x90 => 29,
            Media::D38x90 => 38,
            Media::D39x48 => 39,
            Media::D52x29 => 52,
            Media::D54x29 => 54,
            Media::D60x86 => 60,
            Media::D62x29 => 62,
            Media::D62x100 => 62,
            Media::D12 => 12,
            Media::D24 => 24,
            Media::D58 => 58,
        }
    }

    /// Width of the roll in millimetres, edge to edge.
    #[verifier::when_used_as_spec(spec_width_mm)]
    pub fn width_mm(self) -> (res: u8)
        ensures
            res == self.spec_width_mm(),
    {
        match self {
            Media::C12 => 12,
            Media::C29 => 29,
            Media::C38 => 38,
            Media::C50 => 50,
            Media::C54 => 54,
            Media::C62 => 62,
            Media::C62R => 62,
            Media::D17x54 => 17,
            Media::D17x87 => 17,
            Media::D23x23 => 23,
            Media::D29x42 => 29,
            Media::D29x90 => 29,
            Media::D38x90 => 38,
            Media::D39x48 => 39,
            Media::D52x29 => 52,
            Media::D54x29 => 54,
            Media::D60x86 => 60,
            Media::D62x29 => 62,
            Media::D62x100 => 62,
            Media::D12 => 12,
            Media::D24 => 24,
            Media::D58 => 58,
        }
    }

    /// Printable width in dots at 300 dpi.
    pub open spec fn spec_width_dots(self) -> u32 {
        match self {
            Media::C12 => 106,
            Media::C29 => 306,
            Media::C38 => 413,
            Media::C50 => 554,
            Media::C54 => 590,
            Media::C62 => 696,
            Media::C62R => 696,
            Media::D17x54 => 165,
            Media::D17x87 => 165,
            Media::D23x23 => 236,
            Media::D29x42 => 306,
            Media::D29x90 => 306,
            Media::D38x90 => 413,
            Media::D39x48 => 425,
            Media::D52x29 => 578,
            Media::D54x29 => 602,
            Media::D60x86 => 672,
            Media::D62x29 => 696,
            Media::D62x100 => 696,
            Media::D12 => 94,
            Media::D24 => 236,
            Media::D58 => 618,
        }
    }

    /// Printable width in dots at 300 dpi.
    #[verifier::when_used_as_spec(spec_width_dots)]
    pub fn width_dots(self) -> (res: u32)
        ensures
            res == self.spec_width_dots(),
    {
        match self {
            Media::C12 => 106,
            Media::C29 => 306,
            Media::C38 => 413,
            Media::C50 => 554,
            Media::C54 => 590,
            Media::C62 => 696,
            Media::C62R => 696,
            Media::D17x54 => 165,
            Media::D17x87 => 165,
            Media::D23x23 => 236,
            Media::D29x42 => 306,
            Media::D29x90 => 306,
            Media::D38x90 => 413,
            Media::D39x48 => 425,
            Media::D52x29 => 578,
            Media::D54x29 => 602,
            Media::D60x86 => 672,
            Media::D62x29 => 696,
            Media::D62x100 => 696,
            Media::D12 => 94,
            Media::D24 => 236,
            Media::D58 => 618,
        }
    }

    /// Dots between the start of the print head and the printable area.
    pub open spec fn spec_left_margin(self) -> u32 {
        match self {
            Media::C12 => 585,
            Media::C29 => 408,
            Media::C38 => 295,
            Media::C50 => 154,
            Media::C54 => 130,
            Media::C62 => 12,
            Media::C62R => 12,
            Media::D17x54 => 555,
            Media::D17x87 => 555,
            Media::D23x23 => 442,
            Media::D29x42 => 408,
            Media::D29x90 => 408,
            Media::D38x90 => 295,
            Media::D39x48 => 289,
            Media::D52x29 => 142,
            Media::D54x29 => 59,
            Media::D60x86 => 24,
            Media::D62x29 => 12,
            Media::D62x100 => 12,
            Media::D12 => 513,
            Media::D24 => 442,
            Media::D58 => 51,
        }
    }

    /// Dots between the start of the print head and the printable area.
    #[verifier::when_used_as_spec(spec_left_margin)]
    pub fn left_margin(self) -> (res: u32)
        ensures
            res == self.spec_left_margin(),
    {
        match self {
            Media::C12 => 585,
            Media::C29 => 408,
            Media::C38 => 295,
            Media::C50 => 154,
            Media::C54 => 130,
            Media::C62 => 12,
            Media::C62R => 12,
            Media::D17x54 => 555,
            Media::D17x87 => 555,
            Media::D23x23 => 442,
            Media::D29x42 => 408,
            Media::D29x90 => 408,
            Media::D38x90 => 295,
            Media::D39x48 => 289,
            Media::D52x29 => 142,
            Media::D54x29 => 59,
            Media::D60x86 => 24,
            Media::D62x29 => 12,
            Media::D62x100 => 12,
            Media::D12 => 513,
            Media::D24 => 442,
            Media::D58 => 51,
        }
    }

    /// Whether the roll prints in red and black.
    pub open spec fn spec_supports_color(self) -> bool {
        match self {
            Media::C12 => false,
            Media::C29 => false,
            Media::C38 => false,
            Media::C50 => false,
            Media::C54 => false,
            Media::C62 => false,
            Media::C62R => true,
            Media::D17x54 => false,
            Media::D17x87 => false,
            Media::D23x23 => false,
            Media::D29x42 => false,
            Media::D29x90 => false,
            Media::D38x90 => false,
            Media::D39x48 => false,
            Media::D52x29 => false,
            Media::D54x29 => false,
            Media::D60x86 => false,
            Media::D62x29 => false,
            Media::D62x100 => false,
            Media::D12 => false,
            Media::D24 => false,
            Media::D58 => false,
        }
    }

    /// Whether the roll prints in red and black.
    #[verifier::when_used_as_spec(spec_supports_color)]
    pub fn supports_color(self) -> (res: bool)
        ensures
            res == self.spec_supports_color(),
    {
        match self {
            Media::C12 => false,
            Media::C29 => false,
            Media::C38 => false,
            Media::C50 => false,
            Media::C54 => false,
            Media::C62 => false,
            Media::C62R => true,
            Media::D17x54 => false,
            Media::D17x87 => false,
            Media::D23x23 => false,
            Media::D29x42 => false,
            Media::D29x90 => false,
            Media::D38x90 => false,
            Media::D39x48 => false,
            Media::D52x29 => false,
            Media::D54x29 => false,
            Media::D60x86 => false,
            Media::D62x29 => false,
            Media::D62x100 => false,
            Media::D12 => false,
            Media::D24 => false,
            Media::D58 => false,
        }
    }

    /// Length of one label in millimetres; `None` for a continuous roll.
    pub open spec fn spec_length_mm(self) -> Option<u8> {
        match self {
            Media::C12 => None,
            Media::C29 => None,
            Media::C38 => None,
            Media::C50 => None,
            Media::C54 => None,
            Media::C62 => None,
            Media::C62R => None,
            Media::D17x54 => Some(54),
            Media::D17x87 => Some(87),
            Media::D23x23 => Some(23),
            Media::D29x42 => Some(42),
            Media::D29x90 => Some(90),
            Media::D38x90 => Some(90),
            Media::D39x48 => Some(48),
            Media::D52x29 => Some(29),
            Media::D54x29 => Some(29),
            Media::D60x86 => Some(86),
            Media::D62x29 => Some(29),
            Media::D62x100 => Some(100),
            Media::D12 => Some(12),
            Media::D24 => Some(24),
            Media::D58 => Some(58),
        }
    }

    /// Length of one label in millimetres; `None` for a continuous roll.
    #[verifier::when_used_as_spec(spec_length_mm)]
    pub fn length_mm(self) -> (res: Option<u8>)
        ensures
            res == self.spec_length_mm(),
    {
        match self {
            Media::C12 => None,
            Media::C29 => None,
            Media::C38 => None,
            Media::C50 => None,
            Media::C54 => None,
            Media::C62 => None,
            Media::C62R => None,
            Media::D17x54 => Some(54),
            Media::D17x87 => Some(87),
            Media::D23x23 => Some(23),
            Media::D29x42 => Some(42),
            Media::D29x90 => Some(90),
            Media::D38x90 => Some(90),
            Media::D39x48 => Some(48),
            Media::D52x29 => Some(29),
            Media::D54x29 => Some(29),
            Media::D60x86 => Some(86),
            Media::D62x29 => Some(29),
            Media::D62x100 => Some(100),
            Media::D12 => Some(12),
            Media::D24 => Some(24),
            Media::D58 => Some(58),
        }
    }

    /// Length of one label in dots; `None` for a continuous roll.
    pub open spec fn spec_length_dots(self) -> Option<u32> {
        match self {
            Media::C12 => None,
            Media::C29 => None,
            Media::C38 => None,
            Media::C50 => None,
            Media::C54 => None,
            Media::C62 => None,
            Media::C62R => None,
            Media::D17x54 => Some(566),
            Media::D17x87 => Some(912),
            Media::D23x23 => Some(236),
            Media::D29x42 => Some(442),
            Media::D29x90 => Some(944),
            Media::D38x90 => Some(944),
            Media::D39x48 => Some(512),
            Media::D52x29 => Some(318),
            Media::D54x29 => Some(318),
            Media::D60x86 => Some(902),
            Media::D62x29 => Some(318),
            Media::D62x100 => Some(1104),
            Media::D12 => Some(94),
            Media::D24 => Some(236),
            Media::D58 => Some(630),
        }
    }

    /// Length of one label in dots; `None` for a continuous roll.
    #[verifier::when_used_as_spec(spec_length_dots)]
    pub fn length_dots(self) -> (res: Option<u32>)
        ensures
            res == self.spec_length_dots(),
    {
        match self {
            Media::C12 => None,
            Media::C29 => None,
            Media::C38 => None,
            Media::C50 => None,
            Media::C54 => None,
            Media::C62 => None,
            Media::C62R => None,
            Media::D17x54 => Some(566),
            Media::D17x87 => Some(912),
            Media::D23x23 => Some(236),
            Media::D29x42 => Some(442),
            Media::D29x90 => Some(944),
            Media::D38x90 => Some(944),
            Media::D39x48 => Some(512),
            Media::D52x29 => Some(318),
            Media::D54x29 => Some(318),
            Media::D60x86 => Some(902),
            Media::D62x29 => Some(318),
            Media::D62x100 => Some(1104),
            Media::D12 => Some(94),
            Media::D24 => Some(236),
            Media::D58 => Some(630),
        }
    }

    /// Position of the media in the catalogue.
    pub open spec fn index(self) -> int {
        match self {
            Media::C12 => 0,
            Media::C29 => 1,
            Media::C38 => 2,
            Media::C50 => 3,
            Media::C54 => 4,
            Media::C62 => 5,
            Media::C62R => 6,
            Media::D17x54 => 7,
            Media::D17x87 => 8,
            Media::D23x23 => 9,
            Media::D29x42 => 10,
            Media::D29x90 => 11,
            Media::D38x90 => 12,
            Media::D39x48 => 13,
            Media::D52x29 => 14,
            Media::D54x29 => 15,
            Media::D60x86 => 16,
            Media::D62x29 => 17,
            Media::D62x100 => 18,
            Media::D12 => 19,
            Media::D24 => 20,
            Media::D58 => 21,
        }
    }

    /// The catalogue, in its fixed order.
    pub open spec fn catalogue() -> Seq<Media> {
        seq![
            Media::C12,
            Media::C29,
            Media::C38,
            Media::C50,
            Media::C54,
            Media::C62,
            Media::C62R,
            Media::D17x54,
            Media::D17x87,
            Media::D23x23,
            Media::D29x42,
            Media::D29x90,
            Media::D38x90,
            Media::D39x48,
            Media::D52x29,
            Media::D54x29,
            Media::D60x86,
            Media::D62x29,
            Media::D62x100,
            Media::D12,
            Media::D24,
            Media::D58,
        ]
    }

    /// Every media, in catalogue order.
    pub fn all() -> (list: Vec<Media>)
        ensures
            list@ == Media::catalogue(),
    {
        let list = vec![
            Media::C12,
            Media::C29,
            Media::C38,
            Media::C50,
            Media::C54,
            Media::C62,
            Media::C62R,
            Media::D17x54,
            Media::D17x87,
            Media::D23x23,
            Media::D29x42,
            Media::D29x90,
            Media::D38x90,
            Media::D39x48,
            Media::D52x29,
            Media::D54x29,
            Media::D60x86,
            Media::D62x29,
            Media::D62x100,
            Media::D12,
            Media::D24,
            Media::D58,
        ];
        assert(list@ =~= Media::catalogue());
        list
    }

    /// The short name of the media, as a sequence of characters.
    pub open spec fn spec_name(self) -> Seq<char> {
        match self {
            Media::C12 => "C12"@,
            Media::C29 => "C29"@,
            Media::C38 => "C38"@,
            Media::C50 => "C50"@,
            Media::C54 => "C54"@,
            Media::C62 => "C62"@,
            Media::C62R => "C62R"@,
            Media::D17x54 => "D17x54"@,
            Media::D17x87 => "D17x87"@,
            Media::D23x23 => "D23x23"@,
            Media::D29x42 => "D29x42"@,
            Media::D29x90 => "D29x90"@,
            Media::D38x90 => "D38x90"@,
            Media::D39x48 => "D39x48"@,
            Media::D52x29 => "D52x29"@,
            Media::D54x29 => "D54x29"@,
            Media::D60x86 => "D60x86"@,
            Media::D62x29 => "D62x29"@,
            Media::D62x100 => "D62x100"@,
            Media::D12 => "D12"@,
            Media::D24 => "D24"@,
            Media::D58 => "D58"@,
        }
    }

    /// The short name of the media, such as `C62` or `D17x54`.
    pub fn name(self) -> (name: String)
        ensures
            name@ == self.spec_name(),
    {
        match self {
            Media::C12 => "C12".to_string(),
            Media::C29 => "C29".to_string(),
            Media::C38 => "C38".to_string(),
            Media::C50 => "C50".to_string(),
            Media::C54 => "C54".to_string(),
            Media::C62 => "C62".to_string(),
            Media::C62R => "C62R".to_string(),
            Media::D17x54 => "D17x54".to_string(),
            Media::D17x87 => "D17x87".to_string(),
            Media::D23x23 => "D23x23".to_string(),
            Media::D29x42 => "D29x42".to_string(),
            Media::D29x90 => "D29x90".to_string(),
            Media::D38x90 => "D38x90".to_string(),
            Media::D39x48 => "D39x48".to_string(),
            Media::D52x29 => "D52x29".to_string(),
            Media::D54x29 => "D54x29".to_string(),
            Media::D60x86 => "D60x86".to_string(),
            Media::D62x29 => "D62x29".to_string(),
            Media::D62x100 => "D62x100".to_string(),
            Media::D12 => "D12".to_string(),
            Media::D24 => "D24".to_string(),
            Media::D58 => "D58".to_string(),
        }
    }

    /// A name for people to read, as a sequence of characters.
    pub open spec fn spec_display_name(self) -> Seq<char> {
        match self {
            Media::C12 => "12mm Continuous"@,
            Media::C29 => "29mm Continuous"@,
            Media::C38 => "38mm Continuous"@,
            Media::C50 => "50mm Continuous"@,
            Media::C54 => "54mm Continuous"@,
            Media::C62 => "62mm Continuous"@,
            Media::C62R => "62mm Continuous (Red/Black)"@,
            Media::D17x54 => "17x54mm Die-cut"@,
            Media::D17x87 => "17x87mm Die-cut"@,
            Media::D23x23 => "23x23mm Square"@,
            Media::D29x42 => "29x42mm Die-cut"@,
            Media::D29x90 => "29x90mm Address"@,
            Media::D38x90 => "38x90mm Large Address"@,
            Media::D39x48 => "39x48mm Die-cut"@,
            Media::D52x29 => "52x29mm Die-cut"@,
            Media::D54x29 => "54x29mm Die-cut"@,
            Media::D60x86 => "60x86mm Name Badge"@,
            Media::D62x29 => "62x29mm Small Address"@,
            Media::D62x100 => "62x100mm Shipping"@,
            Media::D12 => "12mm Round"@,
            Media::D24 => "24mm Round"@,
            Media::D58 => "58mm CD/DVD"@,
        }
    }

    /// A name for people to read, such as `62mm Continuous`.
    pub fn display_name(self) -> (name: String)
        ensures
            name@ == self.spec_display_name(),
    {
        match self {
            Media::C12 => "12mm Continuous".to_string(),
            Media::C29 => "29mm Continuous".to_string(),
            Media::C38 => "38mm Continuous".to_string(),
            Media::C50 => "50mm Continuous".to_string(),
            Media::C54 => "54mm Continuous".to_string(),
            Media::C62 => "62mm Continuous".to_string(),
            Media::C62R => "62mm Continuous (Red/Black)".to_string(),
            Media::D17x54 => "17x54mm Die-cut".to_string(),
            Media::D17x87 => "17x87mm Die-cut".to_string(),
            Media::D23x23 => "23x23mm Square".to_string(),
            Media::D29x42 => "29x42mm Die-cut".to_string(),
            Media::D29x90 => "29x90mm Address".to_string(),
            Media::D38x90 => "38x90mm Large Address".to_string(),
            Media::D39x48 => "39x48mm Die-cut".to_string(),
            Media::D52x29 => "52x29mm Die-cut".to_string(),
            Media::D54x29 => "54x29mm Die-cut".to_string(),
            Media::D60x86 => "60x86mm Name Badge".to_string(),
            Media::D62x29 => "62x29mm Small Address".to_string(),
            Media::D62x100 => "62x100mm Shipping".to_string(),
            Media::D12 => "12mm Round".to_string(),
            Media::D24 => "24mm Round".to_string(),
            Media::D58 => "58mm CD/DVD".to_string(),
        }
    }

    /// The media that a short name stands for, if any.
    pub open spec fn parse(name: Seq<char>) -> Option<Media> {
        if name == "C12"@ {
            Some(Media::C12)
        } else if name == "C29"@ {
            Some(Media::C29)
        } else if name == "C38"@ {
            Some(Media::C38)
        } else if name == "C50"@ {
            Some(Media::C50)
        } else if name == "C54"@ {
            Some(Media::C54)
        } else if name == "C62"@ {
            Some(Media::C62)
        } else if name == "C62R"@ {
            Some(Media::C62R)
        } else if name == "D17x54"@ {
            Some(Media::D17x54)
        } else if name == "D17x87"@ {
            Some(Media::D17x87)
        } else if name == "D23x23"@ {
            Some(Media::D23x23)
        } else if name == "D29x42"@ {
            Some(Media::D29x42)
        } else if name == "D29x90"@ {
            Some(Media::D29x90)
        } else if name == "D38x90"@ {
            Some(Media::D38x90)
        } else if name == "D39x48"@ {
            Some(Media::D39x48)
        } else if name == "D52x29"@ {
            Some(Media::D52x29)
        } else if name == "D54x29"@ {
            Some(Media::D54x29)
        } else if name == "D60x86"@ {
            Some(Media::D60x86)
        } else if name == "D62x29"@ {
            Some(Media::D62x29)
        } else if name == "D62x100"@ {
            Some(Media::D62x100)
        } else if name == "D12"@ {
            Some(Media::D12)
        } else if name == "D24"@ {
            Some(Media::D24)
        } else if name == "D58"@ {
            Some(Media::D58)
        } else {
            None
        }
    }

    /// Finds the media with the given short name.
    ///
    /// The name has to match exactly; anything else gives `None`.
    pub fn from_str(name: &str) -> (res: Option<Media>)
        ensures
            res == Media::parse(name@),
    {
        if same_text(name, "C12") {
            Some(Media::C12)
        } else if same_text(name, "C29") {
            Some(Media::C29)
        } else if same_text(name, "C38") {
            Some(Media::C38)
        } else if same_text(name, "C50") {
            Some(Media::C50)
        } else if same_text(name, "C54") {
            Some(Media::C54)
        } else if same_text(name, "C62") {
            Some(Media::C62)
        } else if same_text(name, "C62R") {
            Some(Media::C62R)
        } else if same_text(name, "D17x54") {
            Some(Media::D17x54)
        } else if same_text(name, "D17x87") {
            Some(Media::D17x87)
        } else if same_text(name, "D23x23") {
            Some(Media::D23x23)
        } else if same_text(name, "D29x42") {
            Some(Media::D29x42)
        } else if same_text(name, "D29x90") {
            Some(Media::D29x90)
        } else if same_text(name, "D38x90") {
            Some(Media::D38x90)
        } else if same_text(name, "D39x48") {
            Some(Media::D39x48)
        } else if same_text(name, "D52x29") {
            Some(Media::D52x29)
        } else if same_text(name, "D54x29") {
            Some(Media::D54x29)
        } else if same_text(name, "D60x86") {
            Some(Media::D60x86)
        } else if same_text(name, "D62x29") {
            Some(Media::D62x29)
        } else if same_text(name, "D62x100") {
            Some(Media::D62x100)
        } else if same_text(name, "D12") {
            Some(Media::D12)
        } else if same_text(name, "D24") {
            Some(Media::D24)
        } else if same_text(name, "D58") {
            Some(Media::D58)
        } else {
            None
        }
    }
}

impl Media {
    /// The length byte a printer reports for this media: the label length for
    /// die-cut labels, zero for a continuous roll.
    pub open spec fn spec_reported_length(self) -> u8 {
        match self.spec_length_mm() {
            Some(length_mm) => length_mm,
            None => 0,
        }
    }

    /// The length byte a printer reports for this media: the label length for
    /// die-cut labels, zero for a continuous roll.
    #[verifier::when_used_as_spec(spec_reported_length)]
    pub fn reported_length(self) -> (length: u8)
        ensures
            length == self.spec_reported_length(),
    {
        match self.length_mm() {
            Some(length_mm) => length_mm,
            None => 0,
        }
    }

    /// Whether the media fields of a status reply describe this media: the
    /// label type, the width and the length all agree.
    pub open spec fn spec_matches_reply(
        self,
        media_type: Option<LabelType>,
        width_mm: u8,
        length_mm: u8,
    ) -> bool {
        &&& media_type == Some(self.spec_label_type())
        &&& width_mm == self.spec_width_mm()
        &&& length_mm == self.spec_reported_length()
    }

    /// Whether the media fields of a status reply describe this media: the
    /// label type, the width and the length all agree.
    #[verifier::when_used_as_spec(spec_matches_reply)]
    pub fn matches_reply(self, media_type: Option<LabelType>, width_mm: u8, length_mm: u8) -> (res:
        bool)
        ensures
            res == self.spec_matches_reply(media_type, width_mm, length_mm),
    {
        let type_matches = match media_type {
            Some(label_type) => label_type == self.label_type(),
            None => false,
        };
        type_matches && width_mm == self.width_mm() && length_mm == self.reported_length()
    }

    /// The first media of the catalogue that the media fields of a status
    /// reply describe.
    pub open spec fn spec_find_by_reply(
        media_type: Option<LabelType>,
        width_mm: u8,
        length_mm: u8,
    ) -> Option<Media> {
        Media::first_match_from(0, media_type, width_mm, length_mm)
    }

    /// The first media at or after position `from` that the reply describes.
    pub open spec fn first_match_from(
        from: int,
        media_type: Option<LabelType>,
        width_mm: u8,
        length_mm: u8,
    ) -> Option<Media>
        decreases Media::catalogue().len() - from,
    {
        if from < 0 || from >= Media::catalogue().len() {
            None
        } else if Media::catalogue()[from].spec_matches_reply(media_type, width_mm, length_mm) {
            Some(Media::catalogue()[from])
        } else {
            Media::first_match_from(from + 1, media_type, width_mm, length_mm)
        }
    }

    /// Maps the media fields of a status reply back to a media.
    ///
    /// Several rolls can share type, width and length (the plain and the
    /// red/black 62 mm roll do); the first of the catalogue is returned.
    /// `None` means that no media of the catalogue fits the reply.
    pub fn find_by_reply(media_type: Option<LabelType>, width_mm: u8, length_mm: u8) -> (res:
        Option<Media>)
        ensures
            res == Media::spec_find_by_reply(media_type, width_mm, length_mm),
    {
        let all = Media::all();
        let mut i: usize = 0;
        while i < all.len()
            invariant
                i <= all.len(),
                all@ == Media::catalogue(),
                Media::spec_find_by_reply(media_type, width_mm, length_mm)
                    == Media::first_match_from(i as int, media_type, width_mm, length_mm),
            decreases all.len() - i,
        {
            let candidate = all[i];
            if candidate.matches_reply(media_type, width_mm, length_mm) {
                return Some(candidate);
            }
            i += 1;
        }
        None
    }

    /// Size in dots, width first, of the sample label for this media: the
    /// label itself for die-cut media, 300 dots high for a continuous roll.
    pub open spec fn spec_sample_label_size(self) -> (u32, u32) {
        (
            self.spec_width_dots(),
            match self.spec_length_dots() {
                Some(length_dots) => length_dots,
                None => SAMPLE_LABEL_HEIGHT,
            },
        )
    }

    /// Size in dots, width first, of the sample label for this media: the
    /// label itself for die-cut media, 300 dots high for a continuous roll.
    #[verifier::when_used_as_spec(spec_sample_label_size)]
    pub fn sample_label_size(self) -> (size: (u32, u32))
        ensures
            size == self.spec_sample_label_size(),
    {
        (
            self.width_dots(),
            match self.length_dots() {
                Some(length_dots) => length_dots,
                None => SAMPLE_LABEL_HEIGHT,
            },
        )
    }
}

/// What there is to know of a media, in one record.
#[derive(Debug, Clone, PartialEq, Eq)]
pub struct MediaInfo {
    /// The short name.
    pub name: String,
    /// The name for people to read.
    pub display_name: String,
    /// Whether the roll is continuous or die-cut.
    pub label_type: LabelType,
    /// Width in millimetres.
    pub width_mm: u8,
    /// Printable width in dots.
    pub width_dots: u32,
    /// Length of one label in millimetres, for die-cut labels.
    pub length_mm: Option<u8>,
    /// Length of one label in dots, for die-cut labels.
    pub length_dots: Option<u32>,
    /// Whether the roll prints in red and black.
    pub supports_color: bool,
}

/// Looks a media up by its short name and tells what there is to know of it.
/// `None` if no media has the name.
pub fn get_media_info(media_name: &str) -> (res: Option<MediaInfo>)
    ensures
        match res {
            Some(info) => {
                &&& Media::parse(media_name@) matches Some(media)
                &&& info.name@ == media_name@
                &&& info.display_name@ == media.spec_display_name()
                &&& info.label_type == media.spec_label_type()
                &&& info.width_mm == media.spec_width_mm()
                &&& info.width_dots == media.spec_width_dots()
                &&& info.length_mm == media.spec_length_mm()
                &&& info.length_dots == media.spec_length_dots()
                &&& info.supports_color == media.spec_supports_color()
            },
            None => Media::parse(media_name@).is_none(),
        },
{
    match Media::from_str(media_name) {
        None => None,
        Some(media) => Some(
            MediaInfo {
                name: media_name.to_string(),
                display_name: media.display_name(),
                label_type: media.label_type(),
                width_mm: media.width_mm(),
                width_dots: media.width_dots(),
                length_mm: media.length_mm(),
                length_dots: media.length_dots(),
                supports_color: media.supports_color(),
            },
        ),
    }
}

/// The short names of all media, in catalogue order.
pub fn get_all_media_type_names() -> (names: Vec<String>)
    ensures
        names@.len() == Media::catalogue().len(),
        forall|i: int|
            0 <= i < names@.len() ==> (#[trigger] names@[i])@ == Media::catalogue()[i].spec_name(),
{
    let all = Media::all();
    let mut names: Vec<String> = Vec::new();
    let mut i: usize = 0;
    while i < all.len()
        invariant
            i <= all.len(),
            all@ == Media::catalogue(),
            names@.len() == i,
            forall|j: int|
                0 <= j < i ==> (#[trigger] names@[j])@ == Media::catalogue()[j].spec_name(),
        decreases all.len() - i,
    {
        names.push(all[i].name());
        i += 1;
    }
    names
}

/// Every media sits in the catalogue at its own position, and nowhere else.
pub proof fn lemma_catalogue_complete(media: Media)
    ensures
        Media::catalogue().len() == 22,
        0 <= media.index() < Media::catalogue().len(),
        Media::catalogue()[media.index()] == media,
        forall|i: int|
            0 <= i < Media::catalogue().len() && Media::catalogue()[i] == media ==> i
                == media.index(),
{
}

/// The geometry of every media fits the print head: margin and printable
/// width together stay within its 720 dots, and the printable width is never
/// under two dots.
pub proof fn lemma_media_fits_print_head(media: Media)
    ensures
        media.spec_left_margin() + media.spec_width_dots() <= PRINT_HEAD_DOTS,
        media.spec_width_dots() >= 2,
{
}

/// A label length is known exactly for die-cut media, in millimetres and in
/// dots alike, and a colour roll is always continuous.
pub proof fn lemma_media_lengths(media: Media)
    ensures
        media.spec_length_mm().is_some() <==> media.spec_label_type() == LabelType::DieCut,
        media.spec_length_dots().is_some() <==> media.spec_label_type() == LabelType::DieCut,
        media.spec_supports_color() ==> media.spec_label_type() == LabelType::Continuous,
        media.spec_label_type() == LabelType::DieCut ==> media.spec_reported_length() > 0,
{
}

/// What `find_by_reply` returns is a media that the reply describes, no media
/// before it in the catalogue fits, and `None` comes only when none fits.
pub proof fn lemma_find_by_reply(media_type: Option<LabelType>, width_mm: u8, length_mm: u8)
    ensures
        match Media::spec_find_by_reply(media_type, width_mm, length_mm) {
            Some(found) => {
                &&& found.spec_matches_reply(media_type, width_mm, length_mm)
                &&& forall|other: Media|
                    other.index() < found.index() ==> !other.spec_matches_reply(
                        media_type,
                        width_mm,
                        length_mm,
                    )
            },
            None => forall|other: Media|
                !other.spec_matches_reply(media_type, width_mm, length_mm),
        },
{
    lemma_first_match(0, media_type, width_mm, length_mm);
    assert forall|other: Media| 0 <= other.index() < 22 && Media::catalogue()[other.index()]
        == other by {
        lemma_catalogue_complete(other);
    }
}

proof fn lemma_first_match(from: int, media_type: Option<LabelType>, width_mm: u8, length_mm: u8)
    requires
        0 <= from <= Media::catalogue().len(),
    ensures
        match Media::first_match_from(from, media_type, width_mm, length_mm) {
            Some(found) => {
                &&& from <= found.index()
                &&& found.spec_matches_reply(media_type, width_mm, length_mm)
                &&& forall|i: int|
                    from <= i < found.index() ==> !(#[trigger] Media::catalogue()[i]).spec_matches_reply(
                        media_type,
                        width_mm,
                        length_mm,
                    )
            },
            None => forall|i: int|
                from <= i < Media::catalogue().len() ==> !(#[trigger] Media::catalogue()[i]).spec_matches_reply(
                    media_type,
                    width_mm,
                    length_mm,
                ),
        },
    decreases Media::catalogue().len() - from,
{
    if from < Media::catalogue().len() {
        lemma_catalogue_complete(Media::catalogue()[from]);
        if !Media::catalogue()[from].spec_matches_reply(media_type, width_mm, length_mm) {
            lemma_first_match(from + 1, media_type, width_mm, length_mm);
        }
    }
}

/// Parsing the short name of a media gives that media back, so no two media
/// share a name.
pub proof fn lemma_name_round_trip(media: Media)
    ensures
        Media::parse(media.spec_name()) == Some(media),
{
    reveal_names();
}

/// A name is understood exactly when it is the short name of some media.
pub proof fn lemma_parse_is_exact(name: Seq<char>)
    ensures
        match Media::parse(name) {
            Some(media) => media.spec_name() == name,
            None => forall|media: Media| media.spec_name() != name,
        },
{
}

/// What the short names hold, character by character.
proof fn reveal_names()
    ensures
        "C12"@.len() == 3,
        "C12"@[0] == 'C',
        "C12"@[1] == '1',
        "C12"@[2] == '2',
        "C29"@.len() == 3,
        "C29"@[0] == 'C',
        "C29"@[1] == '2',
        "C29"@[2] == '9',
        "C38"@.len() == 3,
        "C38"@[0] == 'C',
        "C38"@[1] == '3',
        "C38"@[2] == '8',
        "C50"@.len() == 3,
        "C50"@[0] == 'C',
        "C50"@[1] == '5',
        "C50"@[2] == '0',
        "C54"@.len() == 3,
        "C54"@[0] == 'C',
        "C54"@[1] == '5',
        "C54"@[2] == '4',
        "C62"@.len() == 3,
        "C62"@[0] == 'C',
        "C62"@[1] == '6',
        "C62"@[2] == '2',
        "C62R"@.len() == 4,
        "C62R"@[0] == 'C',
        "C62R"@[1] == '6',
        "C62R"@[2] == '2',
        "C62R"@[3] == 'R',
        "D17x54"@.len() == 6,
        "D17x54"@[0] == 'D',
        "D17x54"@[1] == '1',
        "D17x54"@[2] == '7',
        "D17x54"@[3] == 'x',
        "D17x54"@[4] == '5',
        "D17x54"@[5] == '4',
        "D17x87"@.len() == 6,
        "D17x87"@[0] == 'D',
        "D17x87"@[1] == '1',
        "D17x87"@[2] == '7',
        "D17x87"@[3] == 'x',
        "D17x87"@[4] == '8',
        "D17x87"@[5] == '7',
        "D23x23"@.len() == 6,
        "D23x23"@[0] == 'D',
        "D23x23"@[1] == '2',
        "D23x23"@[2] == '3',
        "D23x23"@[3] == 'x',
        "D23x23"@[4] == '2',
        "D23x23"@[5] == '3',
        "D29x42"@.len() == 6,
        "D29x42"@[0] == 'D',
        "D29x42"@[1] == '2',
        "D29x42"@[2] == '9',
        "D29x42"@[3] == 'x',
        "D29x42"@[4] == '4',
        "D29x42"@[5] == '2',
        "D29x90"@.len() == 6,
        "D29x90"@[0] == 'D',
        "D29x90"@[1] == '2',
        "D29x90"@[2] == '9',
        "D29x90"@[3] == 'x',
        "D29x90"@[4] == '9',
        "D29x90"@[5] == '0',
        "D38x90"@.len() == 6,
        "D38x90"@[0] == 'D',
        "D38x90"@[1] == '3',
        "D38x90"@[2] == '8',
        "D38x90"@[3] == 'x',
        "D38x90"@[4] == '9',
        "D38x90"@[5] == '0',
        "D39x48"@.len() == 6,
        "D39x48"@[0] == 'D',
        "D39x48"@[1] == '3',
        "D39x48"@[2] == '9',
        "D39x48"@[3] == 'x',
        "D39x48"@[4] == '4',
        "D39x48"@[5] == '8',
        "D52x29"@.len() == 6,
        "D52x29"@[0] == 'D',
        "D52x29"@[1] == '5',
        "D52x29"@[2] == '2',
        "D52x29"@[3] == 'x',
        "D52x29"@[4] == '2',
        "D52x29"@[5] == '9',
        "D54x29"@.len() == 6,
        "D54x29"@[0] == 'D',
        "D54x29"@[1] == '5',
        "D54x29"@[2] == '4',
        "D54x29"@[3] == 'x',
        "D54x29"@[4] == '2',
        "D54x29"@[5] == '9',
        "D60x86"@.len() == 6,
        "D60x86"@[0] == 'D',
        "D60x86"@[1] == '6',
        "D60x86"@[2] == '0',
        "D60x86"@[3] == 'x',
        "D60x86"@[4] == '8',
        "D60x86"@[5] == '6',
        "D62x29"@.len() == 6,
        "D62x29"@[0] == 'D',
        "D62x29"@[1] == '6',
        "D62x29"@[2] == '2',
        "D62x29"@[3] == 'x',
        "D62x29"@[4] == '2',
        "D62x29"@[5] == '9',
        "D62x100"@.len() == 7,
        "D62x100"@[0] == 'D',
        "D62x100"@[1] == '6',
        "D62x100"@[2] == '2',
        "D62x100"@[3] == 'x',
        "D62x100"@[4] == '1',
        "D62x100"@[5] == '0',
        "D62x100"@[6] == '0',
        "D12"@.len() == 3,
        "D12"@[0] == 'D',
        "D12"@[1] == '1',
        "D12"@[2] == '2',
        "D24"@.len() == 3,
        "D24"@[0] == 'D',
        "D24"@[1] == '2',
        "D24"@[2] == '4',
        "D58"@.len() == 3,
        "D58"@[0] == 'D',
        "D58"@[1] == '5',
        "D58"@[2] == '8',
{
    reveal_strlit("C12");
    reveal_strlit("C29");
    reveal_strlit("C38");
    reveal_strlit("C50");
    reveal_strlit("C54");
    reveal_strlit("C62");
    reveal_strlit("C62R");
    reveal_strlit("D17x54");
    reveal_strlit("D17x87");
    reveal_strlit("D23x23");
    reveal_strlit("D29x42");
    reveal_strlit("D29x90");
    reveal_strlit("D38x90");
    reveal_strlit("D39x48");
    reveal_strlit("D52x29");
    reveal_strlit("D54x29");
    reveal_strlit("D60x86");
    reveal_strlit("D62x29");
    reveal_strlit("D62x100");
    reveal_strlit("D12");
    reveal_strlit("D24");
    reveal_strlit("D58");
}

} // verus!

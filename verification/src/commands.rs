//! The raster command set and its encoding.
//!
//! Each command lowers to a fixed byte sequence. The sequences are given as
//! functions over plain values, one per command, and
//! [`RasterCommand::encode`] is proved to produce exactly those bytes.

use vstd::prelude::*;
use crate::error::StatusParsingError;
use crate::media::{LabelType, Media};

verus! {

/// Number of zero bytes that clear whatever the printer was still waiting for.
pub const INVALIDATE_LEN: usize = 400;

/// Number of bytes in one raster line: 720 dots, eight to a byte.
pub const RASTER_LINE_BYTES: usize = 90;

/// The command language the printer is switched to.
#[derive(Debug, Clone, Copy, PartialEq, Eq, Structural)]
pub enum DynamicCommandMode {
    /// Raster graphics, the only mode this library speaks.
    Raster,
}

/// The energy a line of a two-colour print is burnt with.
#[derive(Debug, Clone, Copy, PartialEq, Eq, Structural)]
pub enum ColorPower {
    /// Low energy, which turns the paper red.
    LowEnergy,
    /// High energy, which turns the paper black.
    HighEnergy,
}

/// The settings carried by the various-mode byte.
#[derive(Debug, Clone, Copy, PartialEq, Eq, Structural)]
pub struct VariousModeSettings {
    /// Whether the printer cuts by itself.
    pub auto_cut: bool,
}

impl VariousModeSettings {
    /// The settings a various-mode byte stands for: bit 6 says whether the
    /// printer cuts by itself, and no other bit is looked at.
    pub open spec fn spec_from_byte(value: u8) -> VariousModeSettings {
        VariousModeSettings { auto_cut: value & 0x40 != 0 }
    }

    /// Decodes a various-mode byte: bit 6 says whether the printer cuts by
    /// itself, and no other bit is looked at.
    #[verifier::when_used_as_spec(spec_from_byte)]
    pub fn from_byte(value: u8) -> (settings: VariousModeSettings)
        ensures
            settings == VariousModeSettings::spec_from_byte(value),
    {
        VariousModeSettings { auto_cut: value & 0x40 != 0 }
    }

    /// Decodes the various-mode byte of a status reply.
    ///
    /// Every byte is accepted: only the auto-cut bit is decoded, and what the
    /// printer puts into the other bits is left alone.
    pub fn try_from(value: u8) -> (res: Result<VariousModeSettings, StatusParsingError>)
        ensures
            res matches Ok(settings) && settings == VariousModeSettings::spec_from_byte(value),
    {
        Ok(VariousModeSettings::from_byte(value))
    }
}

/// `Invalidate`: 400 zero bytes.
pub open spec fn invalidate_bytes() -> Seq<u8> {
    Seq::new(INVALIDATE_LEN as nat, |i: int| 0u8)
}

/// `Initialize`: `1B 40`.
pub open spec fn initialize_bytes() -> Seq<u8> {
    seq![0x1bu8, 0x40u8]
}

/// `StatusInformationRequest`: `1B 69 53`.
pub open spec fn status_request_bytes() -> Seq<u8> {
    seq![0x1bu8, 0x69u8, 0x53u8]
}

/// `SpecifyMarginAmount`: `1B 69 64`, then the margin, low byte first.
pub open spec fn margin_bytes(margin_size: u16) -> Seq<u8> {
    seq![0x1bu8, 0x69u8, 0x64u8, (margin_size % 256) as u8, (margin_size / 256) as u8]
}

/// `SwitchDynamicCommandMode`: `1B 69 61`, then `01` for raster mode.
pub open spec fn command_mode_bytes(command_mode: DynamicCommandMode) -> Seq<u8> {
    seq![0x1bu8, 0x69u8, 0x61u8, 0x01u8]
}

/// `SwitchAutomaticStatusNotificationMode`: `1B 69 21`, then `00` to be
/// notified and `01` not to be.
pub open spec fn notification_bytes(notify: bool) -> Seq<u8> {
    seq![0x1bu8, 0x69u8, 0x21u8, if notify { 0x00u8 } else { 0x01u8 }]
}

/// The length byte of a raster transfer: the number of data bytes, cut to one byte.
pub open spec fn transfer_len_byte(data: Seq<u8>) -> u8 {
    (data.len() % 256) as u8
}

/// `RasterGraphicsTransfer`: `67 00`, the length byte, then the line.
pub open spec fn raster_transfer_bytes(data: Seq<u8>) -> Seq<u8> {
    seq![0x67u8, 0x00u8, transfer_len_byte(data)] + data
}

/// The byte that selects the energy of a two-colour line: `01` for high
/// energy (black), `02` for low energy (red).
pub open spec fn color_power_byte(color_power: ColorPower) -> u8 {
    match color_power {
        ColorPower::HighEnergy => 0x01,
        ColorPower::LowEnergy => 0x02,
    }
}

/// `TwoColorRasterGraphicsTransfer`: `77`, the energy, the length byte, then the line.
pub open spec fn two_color_transfer_bytes(data: Seq<u8>, color_power: ColorPower) -> Seq<u8> {
    seq![0x77u8, color_power_byte(color_power), transfer_len_byte(data)] + data
}

/// `SelectCompressionMode`: `4D`, then `02` for TIFF compression and `00` for none.
pub open spec fn compression_bytes(tiff_compression: bool) -> Seq<u8> {
    seq![0x4du8, if tiff_compression { 0x02u8 } else { 0x00u8 }]
}

/// `SpecifyPageNumber`: `1B 69 41`, then the number of pages between cuts.
pub open spec fn page_number_bytes(cut_every: u8) -> Seq<u8> {
    seq![0x1bu8, 0x69u8, 0x41u8, cut_every]
}

/// `VariousMode`: `1B 69 4D`, then `40` with auto-cut and `00` without.
pub open spec fn various_mode_bytes(settings: VariousModeSettings) -> Seq<u8> {
    seq![0x1bu8, 0x69u8, 0x4du8, if settings.auto_cut { 0x40u8 } else { 0x00u8 }]
}

/// The flag byte of `ExpandedMode`: bit 0 for two-colour printing, bit 3 for a
/// cut at the end, bit 6 for the high resolution.
pub open spec fn expanded_mode_flags(two_color: bool, cut_at_end: bool, high_dpi: bool) -> u8 {
    ((if two_color { 0x01int } else { 0 }) + (if cut_at_end { 0x08int } else { 0 }) + (if high_dpi {
        0x40int
    } else {
        0
    })) as u8
}

/// `ExpandedMode`: `1B 69 4B`, then the flag byte.
pub open spec fn expanded_mode_bytes(two_color: bool, cut_at_end: bool, high_dpi: bool) -> Seq<u8> {
    seq![0x1bu8, 0x69u8, 0x4bu8, expanded_mode_flags(two_color, cut_at_end, high_dpi)]
}

/// The flag byte of `PrintInformation`, which says which of the fields that
/// follow it count: media type and width always (`0x02`, `0x04`), the length
/// for media of fixed length (`0x08`), then the quality priority (`0x40`) and
/// the recovery setting (`0x80`).
pub open spec fn valid_flag(fixed_length: bool, quality_priority: bool, recovery_on: bool) -> u8 {
    (0x06int + (if fixed_length { 0x08int } else { 0 }) + (if quality_priority { 0x40int } else { 0 })
        + (if recovery_on { 0x80int } else { 0 })) as u8
}

/// Byte `index` of a line count, least significant byte first.
pub open spec fn line_count_byte(no_lines: u32, index: nat) -> u8 {
    if index == 0 {
        (no_lines % 256) as u8
    } else if index == 1 {
        ((no_lines / 0x100) % 256) as u8
    } else if index == 2 {
        ((no_lines / 0x1_0000) % 256) as u8
    } else {
        ((no_lines / 0x100_0000) % 256) as u8
    }
}

/// `PrintInformation`, thirteen bytes: `1B 69 7A`, the flag byte, the media
/// type, the width and the length in millimetres (zero for a continuous
/// roll), the number of raster lines in four bytes starting with the least
/// significant, `00` on the first page and `01` on every other, and `00`.
pub open spec fn print_information_bytes(
    media: Media,
    quality_priority: bool,
    recovery_on: bool,
    no_lines: u32,
    first_page: bool,
) -> Seq<u8> {
    seq![
        0x1bu8,
        0x69u8,
        0x7au8,
        valid_flag(media.spec_length_mm().is_some(), quality_priority, recovery_on),
        if media.spec_length_mm().is_some() {
            LabelType::DieCut.spec_code()
        } else {
            LabelType::Continuous.spec_code()
        },
        media.spec_width_mm(),
        media.spec_reported_length(),
        line_count_byte(no_lines, 0),
        line_count_byte(no_lines, 1),
        line_count_byte(no_lines, 2),
        line_count_byte(no_lines, 3),
        if first_page { 0x00u8 } else { 0x01u8 },
        0x00u8,
    ]
}

/// `Print`: `0C`, which prints the page and waits for the next.
pub open spec fn print_bytes() -> Seq<u8> {
    seq![0x0cu8]
}

/// `PrintWithFeed`: `1A`, which prints the last page and feeds it out.
pub open spec fn print_with_feed_bytes() -> Seq<u8> {
    seq![0x1au8]
}

/// One command of the raster language.
#[derive(Debug, Clone, PartialEq, Eq)]
pub enum RasterCommand {
    /// Clears what the printer had received so far.
    Invalidate,
    /// Asks the printer for a status reply.
    StatusInformationRequest,
    /// Resets the printer's settings.
    Initialize,
    /// Sets the feed before and after the print, in dots.
    SpecifyMarginAmount { margin_size: u16 },
    /// Selects the command language.
    SwitchDynamicCommandMode { command_mode: DynamicCommandMode },
    /// Says whether the printer reports changes of its state by itself.
    SwitchAutomaticStatusNotificationMode { notify: bool },
    /// One raster line of a monochrome print.
    RasterGraphicsTransfer { data: Vec<u8> },
    /// One raster line of one colour of a two-colour print.
    TwoColorRasterGraphicsTransfer { data: Vec<u8>, color_power: ColorPower },
    /// Selects how raster lines are compressed.
    SelectCompressionMode { tiff_compression: bool },
    /// Sets after how many pages the printer cuts.
    SpecifyPageNumber { cut_every: u8 },
    /// Sets the various-mode byte.
    VariousMode(VariousModeSettings),
    /// Sets the expanded-mode byte.
    ExpandedMode { two_color: bool, cut_at_end: bool, high_dpi: bool },
    /// Describes the page that follows.
    PrintInformation {
        media: Media,
        quality_priority: bool,
        recovery_on: bool,
        no_lines: u32,
        first_page: bool,
    },
    /// Prints a page that is not the last.
    Print,
    /// Prints the last page.
    PrintWithFeed,
}

impl RasterCommand {
    /// The bytes this command is sent as.
    pub open spec fn spec_encode(self) -> Seq<u8> {
        match self {
            RasterCommand::Invalidate => invalidate_bytes(),
            RasterCommand::StatusInformationRequest => status_request_bytes(),
            RasterCommand::Initialize => initialize_bytes(),
            RasterCommand::SpecifyMarginAmount { margin_size } => margin_bytes(margin_size),
            RasterCommand::SwitchDynamicCommandMode { command_mode } => command_mode_bytes(
                command_mode,
            ),
            RasterCommand::SwitchAutomaticStatusNotificationMode { notify } => notification_bytes(
                notify,
            ),
            RasterCommand::RasterGraphicsTransfer { data } => raster_transfer_bytes(data@),
            RasterCommand::TwoColorRasterGraphicsTransfer {
                data,
                color_power,
            } => two_color_transfer_bytes(data@, color_power),
            RasterCommand::SelectCompressionMode { tiff_compression } => compression_bytes(
                tiff_compression,
            ),
            RasterCommand::SpecifyPageNumber { cut_every } => page_number_bytes(cut_every),
            RasterCommand::VariousMode(settings) => various_mode_bytes(settings),
            RasterCommand::ExpandedMode { two_color, cut_at_end, high_dpi } => expanded_mode_bytes(
                two_color,
                cut_at_end,
                high_dpi,
            ),
            RasterCommand::PrintInformation {
                media,
                quality_priority,
                recovery_on,
                no_lines,
                first_page,
            } => print_information_bytes(media, quality_priority, recovery_on, no_lines, first_page),
            RasterCommand::Print => print_bytes(),
            RasterCommand::PrintWithFeed => print_with_feed_bytes(),
        }
    }

    /// Encodes the command.
    ///
    /// Encoding never fails: every command, with every argument, has bytes.
    /// A transfer copies its data whatever its length; the length byte holds
    /// the length modulo 256, so it is the length itself for the 90-byte
    /// lines that a print job sends.
    pub fn encode(self) -> (bytes: Vec<u8>)
        ensures
            bytes@ == self.spec_encode(),
    {
        match self {
            RasterCommand::Invalidate => {
                let bytes = vec![0u8; INVALIDATE_LEN];
                assert(bytes@ =~= invalidate_bytes());
                bytes
            },
            RasterCommand::StatusInformationRequest => vec![0x1b, 0x69, 0x53],
            RasterCommand::Initialize => vec![0x1b, 0x40],
            RasterCommand::SpecifyMarginAmount { margin_size } => {
                let low = (margin_size % 256) as u8;
                let high = (margin_size / 256) as u8;
                vec![0x1b, 0x69, 0x64, low, high]
            },
            RasterCommand::SwitchDynamicCommandMode { command_mode } => {
                let mode: u8 = match command_mode {
                    DynamicCommandMode::Raster => 0x01,
                };
                vec![0x1b, 0x69, 0x61, mode]
            },
            RasterCommand::SwitchAutomaticStatusNotificationMode { notify } => {
                let flag: u8 = if notify { 0x00 } else { 0x01 };
                vec![0x1b, 0x69, 0x21, flag]
            },
            RasterCommand::RasterGraphicsTransfer { data } => {
                let mut data = data;
                let len_byte = (data.len() % 256) as u8;
                let mut bytes: Vec<u8> = vec![0x67, 0x00, len_byte];
                bytes.append(&mut data);
                bytes
            },
            RasterCommand::TwoColorRasterGraphicsTransfer { data, color_power } => {
                let mut data = data;
                let power: u8 = match color_power {
                    ColorPower::HighEnergy => 0x01,
                    ColorPower::LowEnergy => 0x02,
                };
                let len_byte = (data.len() % 256) as u8;
                let mut bytes: Vec<u8> = vec![0x77, power, len_byte];
                bytes.append(&mut data);
                bytes
            },
            RasterCommand::Print => vec![0x0c],
            RasterCommand::PrintWithFeed => vec![0x1a],
            RasterCommand::SelectCompressionMode { tiff_compression } => {
                let mode: u8 = if tiff_compression { 0x02 } else { 0x00 };
                vec![0x4d, mode]
            },
            RasterCommand::SpecifyPageNumber { cut_every } => vec![0x1b, 0x69, 0x41, cut_every],
            RasterCommand::VariousMode(settings) => {
                let mode: u8 = if settings.auto_cut { 0x40 } else { 0x00 };
                vec![0x1b, 0x69, 0x4d, mode]
            },
            RasterCommand::ExpandedMode { two_color, cut_at_end, high_dpi } => {
                let mut flags: u8 = 0x00;
                if two_color {
                    flags = flags + 0x01;
                }
                if cut_at_end {
                    flags = flags + 0x08;
                }
                if high_dpi {
                    flags = flags + 0x40;
                }
                vec![0x1b, 0x69, 0x4b, flags]
            },
            RasterCommand::PrintInformation {
                media,
                quality_priority,
                recovery_on,
                no_lines,
                first_page,
            } => {
                // Media type and media width are always valid.
                let mut flag: u8 = 0x06;
                let media_width = media.width_mm();
                let mut media_length: u8 = 0x00;
                let media_type: u8;
                match media.length_mm() {
                    None => {
                        media_type = LabelType::Continuous.code();
                    },
                    Some(length_mm) => {
                        media_type = LabelType::DieCut.code();
                        media_length = length_mm;
                        flag = flag + 0x08;
                    },
                }
                if quality_priority {
                    flag = flag + 0x40;
                }
                if recovery_on {
                    flag = flag + 0x80;
                }
                let n5 = (no_lines % 256) as u8;
                let n6 = ((no_lines / 0x100) % 256) as u8;
                let n7 = ((no_lines / 0x1_0000) % 256) as u8;
                let n8 = ((no_lines / 0x100_0000) % 256) as u8;
                let page_flag: u8 = if first_page { 0x00 } else { 0x01 };
                vec![
                    0x1b,
                    0x69,
                    0x7a,
                    flag,
                    media_type,
                    media_width,
                    media_length,
                    n5,
                    n6,
                    n7,
                    n8,
                    page_flag,
                    0x00,
                ]
            },
        }
    }
}

/// A sequence of encoded commands, kept apart until they are sent.
#[derive(Debug, Clone, PartialEq, Eq)]
pub struct RasterCommands {
    /// The encoded commands, in the order in which they were added.
    pub commands: Vec<Vec<u8>>,
}

impl View for RasterCommands {
    type V = Seq<Seq<u8>>;

    /// The encoded commands, each as its sequence of bytes.
    open spec fn view(&self) -> Seq<Seq<u8>> {
        Seq::new(self.commands@.len(), |i: int| self.commands@[i]@)
    }
}

/// The two commands every transmission starts with: `Invalidate`, then `Initialize`.
pub open spec fn preamble_commands() -> Seq<Seq<u8>> {
    seq![invalidate_bytes(), initialize_bytes()]
}

impl RasterCommands {
    /// An empty sequence of commands.
    pub fn new() -> (res: RasterCommands)
        ensures
            res@ == Seq::<Seq<u8>>::empty(),
    {
        let res = RasterCommands { commands: Vec::new() };
        assert(res@ =~= Seq::<Seq<u8>>::empty());
        res
    }

    /// Appends one command.
    pub fn add(&mut self, cmd: RasterCommand)
        ensures
            final(self)@ == old(self)@.push(cmd.spec_encode()),
    {
        let bytes = cmd.encode();
        self.commands.push(bytes);
        assert(self@ =~= old(self)@.push(cmd.spec_encode()));
    }

    /// The bytes of all commands, one after the other.
    pub fn build(self) -> (bytes: Vec<u8>)
        ensures
            bytes@ == self@.flatten(),
    {
        self.to_bytes()
    }

    /// The bytes of all commands, one after the other, leaving the commands
    /// with their owner.
    pub fn to_bytes(&self) -> (bytes: Vec<u8>)
        ensures
            bytes@ == self@.flatten(),
    {
        let mut bytes: Vec<u8> = Vec::new();
        let mut i: usize = 0;
        assert(self@.take(0) =~= Seq::<Seq<u8>>::empty());
        while i < self.commands.len()
            invariant
                i <= self.commands.len(),
                bytes@ == self@.take(i as int).flatten(),
            decreases self.commands.len() - i,
        {
            proof {
                assert(self@.take(i + 1) =~= self@.take(i as int).push(self@[i as int]));
                self@.take(i as int).lemma_flatten_push(self@[i as int]);
            }
            bytes.extend_from_slice(self.commands[i].as_slice());
            i += 1;
        }
        assert(self@.take(i as int) =~= self@);
        bytes
    }

    /// The preamble: 400 zero bytes that clear the printer's input, then the
    /// command that resets it.
    pub fn create_preamble() -> (res: RasterCommands)
        ensures
            res@ == preamble_commands(),
    {
        let mut res = RasterCommands::new();
        res.add(RasterCommand::Invalidate);
        res.add(RasterCommand::Initialize);
        assert(res@ =~= preamble_commands());
        res
    }
}

/// The preamble is 402 bytes long: 400 zero bytes, then `1B 40`.
pub proof fn lemma_preamble_bytes()
    ensures
        preamble_commands().flatten().len() == 402,
        preamble_commands().flatten() == invalidate_bytes() + initialize_bytes(),
        forall|i: int| 0 <= i < 400 ==> preamble_commands().flatten()[i] == 0,
        preamble_commands().flatten()[400] == 0x1b,
        preamble_commands().flatten()[401] == 0x40,
{
    let first = seq![invalidate_bytes()];
    assert(preamble_commands() =~= first.push(initialize_bytes()));
    first.lemma_flatten_push(initialize_bytes());
    first.lemma_flatten_one_element();
}

/// Encoding depends on the command alone: equal commands have equal bytes.
pub proof fn lemma_encoding_is_a_function(a: RasterCommand, b: RasterCommand)
    requires
        a == b,
    ensures
        a.spec_encode() == b.spec_encode(),
{
}

/// The flag byte of `PrintInformation` has bits 1 and 2 set, bit 3 exactly
/// for media of fixed length, bit 6 exactly with quality priority, bit 7
/// exactly with recovery on, and no other bit.
pub proof fn lemma_valid_flag_bits(fixed_length: bool, quality_priority: bool, recovery_on: bool)
    ensures
        forall|bit: u8|
            bit < 8 ==> (((#[trigger] (valid_flag(fixed_length, quality_priority, recovery_on)
                >> bit)) & 1 == 1) <==> (bit == 1 || bit == 2 || (bit == 3 && fixed_length) || (bit
                == 6 && quality_priority) || (bit == 7 && recovery_on))),
{
    let flag = valid_flag(fixed_length, quality_priority, recovery_on);
    assert forall|bit: u8| bit < 8 implies (((#[trigger] (flag >> bit)) & 1 == 1) <==> (bit == 1
        || bit == 2 || (bit == 3 && fixed_length) || (bit == 6 && quality_priority) || (bit == 7
        && recovery_on))) by {
        lemma_flag_bits(flag, bit);
    }
}

/// Which bits are set in each of the eight values the flag byte can take.
proof fn lemma_flag_bits(flag: u8, bit: u8)
    by (bit_vector)
    requires
        bit < 8,
    ensures
        flag == 0x06 ==> (((flag >> bit) & 1 == 1) <==> (bit == 1 || bit == 2)),
        flag == 0x0e ==> (((flag >> bit) & 1 == 1) <==> (bit == 1 || bit == 2 || bit == 3)),
        flag == 0x46 ==> (((flag >> bit) & 1 == 1) <==> (bit == 1 || bit == 2 || bit == 6)),
        flag == 0x4e ==> (((flag >> bit) & 1 == 1) <==> (bit == 1 || bit == 2 || bit == 3 || bit
            == 6)),
        flag == 0x86 ==> (((flag >> bit) & 1 == 1) <==> (bit == 1 || bit == 2 || bit == 7)),
        flag == 0x8e ==> (((flag >> bit) & 1 == 1) <==> (bit == 1 || bit == 2 || bit == 3 || bit
            == 7)),
        flag == 0xc6 ==> (((flag >> bit) & 1 == 1) <==> (bit == 1 || bit == 2 || bit == 6 || bit
            == 7)),
        flag == 0xce ==> (((flag >> bit) & 1 == 1) <==> (bit == 1 || bit == 2 || bit == 3 || bit
            == 6 || bit == 7)),
{
}

/// A transfer of a 90-byte line is 93 bytes long and its length byte is 90.
pub proof fn lemma_transfer_of_line(data: Seq<u8>, color_power: ColorPower)
    requires
        data.len() == RASTER_LINE_BYTES,
    ensures
        raster_transfer_bytes(data).len() == 93,
        raster_transfer_bytes(data)[0] == 0x67,
        raster_transfer_bytes(data)[1] == 0x00,
        raster_transfer_bytes(data)[2] == 90,
        raster_transfer_bytes(data).subrange(3, 93) == data,
        two_color_transfer_bytes(data, color_power).len() == 93,
        two_color_transfer_bytes(data, color_power)[0] == 0x77,
        two_color_transfer_bytes(data, color_power)[1] == color_power_byte(color_power),
        two_color_transfer_bytes(data, color_power)[2] == 90,
        two_color_transfer_bytes(data, color_power).subrange(3, 93) == data,
{
    assert(raster_transfer_bytes(data).subrange(3, 93) =~= data);
    assert(two_color_transfer_bytes(data, color_power).subrange(3, 93) =~= data);
}

} // verus!

use brother_ql::commands::{
    ColorPower, DynamicCommandMode, RasterCommand, RasterCommands, VariousModeSettings,
};
use brother_ql::media::Media;

fn print_information(media: Media, quality_priority: bool, recovery_on: bool) -> Vec<u8> {
    RasterCommand::PrintInformation {
        media,
        quality_priority,
        recovery_on,
        no_lines: 300,
        first_page: true,
    }
    .encode()
}

#[test]
fn invalidate_is_400_zero_bytes() {
    let bytes = RasterCommand::Invalidate.encode();
    assert_eq!(bytes.len(), 400);
    assert!(bytes.iter().all(|&b| b == 0));
}

#[test]
fn fixed_commands_encode_to_their_bytes() {
    assert_eq!(RasterCommand::Initialize.encode(), vec![0x1b, 0x40]);
    assert_eq!(RasterCommand::StatusInformationRequest.encode(), vec![0x1b, 0x69, 0x53]);
    assert_eq!(RasterCommand::Print.encode(), vec![0x0c]);
    assert_eq!(RasterCommand::PrintWithFeed.encode(), vec![0x1a]);
    assert_eq!(
        RasterCommand::SwitchDynamicCommandMode { command_mode: DynamicCommandMode::Raster }
            .encode(),
        vec![0x1b, 0x69, 0x61, 0x01]
    );
}

#[test]
fn status_notification_byte_is_inverted() {
    assert_eq!(
        RasterCommand::SwitchAutomaticStatusNotificationMode { notify: true }.encode(),
        vec![0x1b, 0x69, 0x21, 0x00]
    );
    assert_eq!(
        RasterCommand::SwitchAutomaticStatusNotificationMode { notify: false }.encode(),
        vec![0x1b, 0x69, 0x21, 0x01]
    );
}

#[test]
fn various_mode_sets_bit_six_for_auto_cut() {
    assert_eq!(
        RasterCommand::VariousMode(VariousModeSettings { auto_cut: true }).encode(),
        vec![0x1b, 0x69, 0x4d, 0x40]
    );
    assert_eq!(
        RasterCommand::VariousMode(VariousModeSettings { auto_cut: false }).encode(),
        vec![0x1b, 0x69, 0x4d, 0x00]
    );
}

#[test]
fn specify_page_number_carries_the_count() {
    assert_eq!(
        RasterCommand::SpecifyPageNumber { cut_every: 7 }.encode(),
        vec![0x1b, 0x69, 0x41, 7]
    );
    assert_eq!(
        RasterCommand::SpecifyPageNumber { cut_every: 255 }.encode(),
        vec![0x1b, 0x69, 0x41, 255]
    );
}

#[test]
fn expanded_mode_flags_are_bits_0_3_and_6() {
    let flags = |two_color, cut_at_end, high_dpi| {
        RasterCommand::ExpandedMode { two_color, cut_at_end, high_dpi }.encode()
    };
    assert_eq!(flags(false, false, false), vec![0x1b, 0x69, 0x4b, 0x00]);
    assert_eq!(flags(true, false, false), vec![0x1b, 0x69, 0x4b, 0x01]);
    assert_eq!(flags(false, true, false), vec![0x1b, 0x69, 0x4b, 0x08]);
    assert_eq!(flags(false, false, true), vec![0x1b, 0x69, 0x4b, 0x40]);
    assert_eq!(flags(true, true, true), vec![0x1b, 0x69, 0x4b, 0x49]);
}

#[test]
fn margin_amount_is_little_endian() {
    assert_eq!(
        RasterCommand::SpecifyMarginAmount { margin_size: 35 }.encode(),
        vec![0x1b, 0x69, 0x64, 35, 0]
    );
    assert_eq!(
        RasterCommand::SpecifyMarginAmount { margin_size: 0x1234 }.encode(),
        vec![0x1b, 0x69, 0x64, 0x34, 0x12]
    );
    assert_eq!(
        RasterCommand::SpecifyMarginAmount { margin_size: 0xffff }.encode(),
        vec![0x1b, 0x69, 0x64, 0xff, 0xff]
    );
}

#[test]
fn compression_mode_bytes() {
    assert_eq!(
        RasterCommand::SelectCompressionMode { tiff_compression: false }.encode(),
        vec![0x4d, 0x00]
    );
    assert_eq!(
        RasterCommand::SelectCompressionMode { tiff_compression: true }.encode(),
        vec![0x4d, 0x02]
    );
}

#[test]
fn raster_transfer_has_length_byte_and_data() {
    let line: Vec<u8> = (0..90).collect();
    let bytes = RasterCommand::RasterGraphicsTransfer { data: line.clone() }.encode();
    assert_eq!(bytes.len(), 93);
    assert_eq!(&bytes[..3], &[0x67, 0x00, 90]);
    assert_eq!(&bytes[3..], &line[..]);
}

#[test]
fn two_color_transfer_selects_the_energy() {
    let line = vec![0xaa; 90];
    let black = RasterCommand::TwoColorRasterGraphicsTransfer {
        data: line.clone(),
        color_power: ColorPower::HighEnergy,
    }
    .encode();
    let red = RasterCommand::TwoColorRasterGraphicsTransfer {
        data: line.clone(),
        color_power: ColorPower::LowEnergy,
    }
    .encode();
    assert_eq!(&black[..3], &[0x77, 0x01, 0x5a]);
    assert_eq!(&red[..3], &[0x77, 0x02, 0x5a]);
    assert_eq!(&black[3..], &line[..]);
    assert_eq!(&red[3..], &line[..]);
}

#[test]
fn transfer_length_byte_wraps_at_256() {
    let bytes = RasterCommand::RasterGraphicsTransfer { data: vec![1; 300] }.encode();
    assert_eq!(bytes.len(), 303);
    assert_eq!(bytes[2], 44);
    let empty = RasterCommand::RasterGraphicsTransfer { data: Vec::new() }.encode();
    assert_eq!(empty, vec![0x67, 0x00, 0x00]);
}

#[test]
fn print_information_for_continuous_media() {
    let bytes = RasterCommand::PrintInformation {
        media: Media::C62,
        quality_priority: true,
        recovery_on: false,
        no_lines: 300,
        first_page: true,
    }
    .encode();
    assert_eq!(
        bytes,
        vec![0x1b, 0x69, 0x7a, 0x46, 0x0a, 0x3e, 0x00, 0x2c, 0x01, 0x00, 0x00, 0x00, 0x00]
    );
}

#[test]
fn print_information_for_die_cut_media() {
    let bytes = RasterCommand::PrintInformation {
        media: Media::D24,
        quality_priority: true,
        recovery_on: false,
        no_lines: 236,
        first_page: false,
    }
    .encode();
    assert_eq!(
        bytes,
        vec![0x1b, 0x69, 0x7a, 0x4e, 0x0b, 0x18, 0x18, 0xec, 0x00, 0x00, 0x00, 0x01, 0x00]
    );
}

#[test]
fn print_information_line_count_uses_all_four_bytes() {
    let bytes = RasterCommand::PrintInformation {
        media: Media::C29,
        quality_priority: false,
        recovery_on: false,
        no_lines: 0x0403_0201,
        first_page: true,
    }
    .encode();
    assert_eq!(&bytes[7..11], &[0x01, 0x02, 0x03, 0x04]);
    assert_eq!(bytes[3], 0x06);
    assert_eq!(bytes[5], 29);
}

#[test]
fn valid_flag_composition() {
    for &(media, fixed) in &[(Media::C62, false), (Media::D17x54, true)] {
        for &quality in &[false, true] {
            for &recovery in &[false, true] {
                let flag = print_information(media, quality, recovery)[3];
                for bit in 0..8u8 {
                    let expected = bit == 1
                        || bit == 2
                        || (bit == 3 && fixed)
                        || (bit == 6 && quality)
                        || (bit == 7 && recovery);
                    assert_eq!((flag >> bit) & 1 == 1, expected, "bit {} of {:#x}", bit, flag);
                }
            }
        }
    }
}

#[test]
fn encoding_is_deterministic() {
    let commands = || {
        vec![
            RasterCommand::Invalidate,
            RasterCommand::Initialize,
            RasterCommand::SpecifyMarginAmount { margin_size: 35 },
            RasterCommand::RasterGraphicsTransfer { data: vec![3; 90] },
            RasterCommand::PrintInformation {
                media: Media::D62x100,
                quality_priority: true,
                recovery_on: true,
                no_lines: 1104,
                first_page: true,
            },
        ]
    };
    let first: Vec<Vec<u8>> = commands().into_iter().map(|c| c.encode()).collect();
    let second: Vec<Vec<u8>> = commands().into_iter().map(|c| c.encode()).collect();
    assert_eq!(first, second);
}

#[test]
fn preamble_is_402_bytes() {
    let preamble = RasterCommands::create_preamble().build();
    assert_eq!(preamble.len(), 402);
    assert!(preamble[..400].iter().all(|&b| b == 0));
    assert_eq!(&preamble[400..], &[0x1b, 0x40]);
}

#[test]
fn commands_are_concatenated_in_order() {
    let mut commands = RasterCommands::new();
    assert_eq!(commands.to_bytes(), Vec::<u8>::new());
    commands.add(RasterCommand::Initialize);
    commands.add(RasterCommand::Print);
    commands.add(RasterCommand::SelectCompressionMode { tiff_compression: false });
    assert_eq!(commands.commands.len(), 3);
    assert_eq!(commands.to_bytes(), vec![0x1b, 0x40, 0x0c, 0x4d, 0x00]);
    assert_eq!(commands.build(), vec![0x1b, 0x40, 0x0c, 0x4d, 0x00]);
}

#[test]
fn various_mode_byte_decodes_only_auto_cut() {
    assert!(VariousModeSettings::try_from(0x40).unwrap().auto_cut);
    assert!(!VariousModeSettings::try_from(0x00).unwrap().auto_cut);
    for value in 0..=255u8 {
        let settings = VariousModeSettings::try_from(value).unwrap();
        assert_eq!(settings.auto_cut, value & 0x40 != 0, "byte {:#x}", value);
        assert_eq!(VariousModeSettings::from_byte(value), settings);
    }
    assert!(VariousModeSettings::from_byte(0x41).auto_cut);
    assert!(VariousModeSettings::from_byte(0xff).auto_cut);
    assert!(!VariousModeSettings::from_byte(0x01).auto_cut);
    assert!(!VariousModeSettings::from_byte(0xbf).auto_cut);
}

use brother_ql::commands::VariousModeSettings;
use brother_ql::connection::validate_status;
use brother_ql::error::ProtocolError;
use brother_ql::media::{LabelType, Media};
use brother_ql::printer::PrinterModel;
use brother_ql::status::{
    ErrorFlag, ErrorFlags, Notification, Phase, StatusInformation, StatusType,
};

const FIXED_FIELDS: [(usize, u8); 11] = [
    (0, 0x80),
    (1, 0x20),
    (2, 0x42),
    (3, 0x34),
    (5, 0x30),
    (7, 0x00),
    (12, 0x00),
    (13, 0x00),
    (16, 0x00),
    (23, 0x00),
    (24, 0x00),
];

/// A reply of a QL-820NWB with a 62 mm continuous roll, ready to receive.
fn ready_frame() -> Vec<u8> {
    let mut frame = vec![0u8; 32];
    frame[0] = 0x80;
    frame[1] = 0x20;
    frame[2] = 0x42;
    frame[3] = 0x34;
    frame[4] = 0x41;
    frame[5] = 0x30;
    frame[10] = 62;
    frame[11] = 0x0a;
    frame
}

fn sample_status() -> StatusInformation {
    StatusInformation {
        model: PrinterModel::QL700,
        errors: ErrorFlags::from_bits_retain(0x1234),
        media_width: 29,
        media_type: Some(LabelType::DieCut),
        mode: VariousModeSettings { auto_cut: true },
        media_length: 90,
        status_type: StatusType::PhaseChange,
        phase: Phase::Printing,
        notification: Notification::CoolingStarted,
    }
}

#[test]
fn status_parse_ready() {
    let status = StatusInformation::try_from(&ready_frame()[..]).unwrap();
    assert_eq!(status.model, PrinterModel::QL820NWB);
    assert_eq!(status.phase, Phase::Receiving);
    assert_eq!(status.status_type, StatusType::StatusRequestReply);
    assert!(!status.has_errors());
    assert!(status.errors.is_empty());
    assert_eq!(status.errors.bits(), 0);
    assert_eq!(status.media_width, 62);
    assert_eq!(status.media_type, Some(LabelType::Continuous));
    assert_eq!(status.media_length, 0);
    assert_eq!(status.notification, Notification::Unavailable);
    assert!(!status.mode.auto_cut);
}

#[test]
fn status_parse_no_media_error() {
    let mut frame = ready_frame();
    frame[8] = 0x01;
    frame[9] = 0x00;
    frame[18] = 0x02;
    let status = StatusInformation::try_from(&frame[..]).unwrap();
    assert!(status.has_errors());
    assert!(status.errors.contains(ErrorFlag::NoMediaError));
    assert!(!status.errors.contains(ErrorFlag::CoverOpenError));
    assert_eq!(status.status_type, StatusType::ErrorOccurred);
    let verdict =
        validate_status(&status, Media::C62, StatusType::StatusRequestReply, Phase::Receiving);
    assert_eq!(verdict, Err(ProtocolError::PrinterError(ErrorFlags::from_bits_retain(0x0001))));
}

#[test]
fn status_round_trip() {
    let status = sample_status();
    let frame = status.to_frame();
    assert_eq!(frame.len(), 32);
    assert_eq!(StatusInformation::try_from(&frame[..]).unwrap(), status);
}

#[test]
fn status_round_trip_over_many_values() {
    let models = [PrinterModel::QL560, PrinterModel::QL650TD, PrinterModel::QL820NWB];
    let types = [
        StatusType::StatusRequestReply,
        StatusType::PrintingCompleted,
        StatusType::ErrorOccurred,
        StatusType::TurnedOff,
        StatusType::Notification,
        StatusType::PhaseChange,
    ];
    let notifications =
        [Notification::Unavailable, Notification::CoolingStarted, Notification::CoolingFinished];
    let media_types = [None, Some(LabelType::Continuous), Some(LabelType::DieCut)];
    let mut count = 0;
    for (i, &model) in models.iter().enumerate() {
        for (j, &status_type) in types.iter().enumerate() {
            for &phase in &[Phase::Receiving, Phase::Printing] {
                for (k, &notification) in notifications.iter().enumerate() {
                    for &media_type in &media_types {
                        let status = StatusInformation {
                            model,
                            errors: ErrorFlags::from_bits_retain((count * 2749 % 65536) as u16),
                            media_width: (i * 31 + j) as u8,
                            media_type,
                            mode: VariousModeSettings { auto_cut: count % 2 == 0 },
                            media_length: (k * 50 + j) as u8,
                            status_type,
                            phase,
                            notification,
                        };
                        let frame = status.to_frame();
                        assert_eq!(StatusInformation::try_from(&frame[..]).unwrap(), status);
                        count += 1;
                    }
                }
            }
        }
    }
    assert_eq!(count, 3 * 6 * 2 * 3 * 3);
}

#[test]
fn frame_layout() {
    let frame = sample_status().to_frame();
    assert_eq!(
        frame,
        vec![
            0x80, 0x20, 0x42, 0x34, 0x35, 0x30, 0x00, 0x00, 0x34, 0x12, 29, 0x0b, 0x00, 0x00, 0x00,
            0x40, 0x00, 90, 0x06, 0x01, 0x00, 0x00, 0x03, 0x00, 0x00, 0x00, 0x00, 0x00, 0x00, 0x00,
            0x00, 0x00,
        ]
    );
}

#[test]
fn status_fixed_field_rejection() {
    for &(offset, expected) in &FIXED_FIELDS {
        for wrong in [expected.wrapping_add(1), expected ^ 0x80, !expected] {
            let mut frame = ready_frame();
            frame[offset] = wrong;
            assert!(
                StatusInformation::try_from(&frame[..]).is_err(),
                "offset {} with value {:#x} must be rejected",
                offset,
                wrong
            );
        }
    }
}

#[test]
fn fixed_field_error_names_the_field() {
    let mut frame = ready_frame();
    frame[3] = 0x35;
    let err = StatusInformation::try_from(&frame[..]).unwrap_err();
    assert_eq!(
        err.reason,
        "expected value 0x34 for field Series code at offset 3 but was 0x35"
    );
    let mut frame = ready_frame();
    frame[24] = 0xff;
    let err = StatusInformation::try_from(&frame[..]).unwrap_err();
    assert_eq!(err.reason, "expected value 0x0 for field Reserved at offset 24 but was 0xff");
}

#[test]
fn offsets_6_and_14_and_the_tail_are_not_checked() {
    let expected = StatusInformation::try_from(&ready_frame()[..]).unwrap();
    for offset in [6usize, 14, 25, 26, 27, 28, 29, 30, 31] {
        for value in [0x04u8, 0x15, 0x30, 0x3f, 0xff] {
            let mut frame = ready_frame();
            frame[offset] = value;
            assert_eq!(StatusInformation::try_from(&frame[..]).unwrap(), expected);
        }
    }
}

#[test]
fn wrong_length_is_rejected() {
    let frame = ready_frame();
    for len in [0usize, 1, 31] {
        let err = StatusInformation::try_from(&frame[..len]).unwrap_err();
        assert_eq!(err.reason, format!("invalid size of {}B", len));
    }
    let mut long = frame.clone();
    long.push(0);
    assert_eq!(StatusInformation::try_from(&long[..]).unwrap_err().reason, "invalid size of 33B");
    let longer = vec![0u8; 1234];
    assert_eq!(
        StatusInformation::try_from(&longer[..]).unwrap_err().reason,
        "invalid size of 1234B"
    );
}

#[test]
fn error_flags_keep_all_sixteen_bits() {
    for bits in [0x0008u16, 0x00c0, 0x0800, 0x2000, 0xffff, 0x28c8] {
        let mut frame = ready_frame();
        frame[8] = (bits & 0xff) as u8;
        frame[9] = (bits >> 8) as u8;
        let status = StatusInformation::try_from(&frame[..]).unwrap();
        assert_eq!(status.errors.bits(), bits);
        assert!(status.has_errors());
    }
}

#[test]
fn error_flags_are_little_endian() {
    let mut frame = ready_frame();
    frame[8] = 0x00;
    frame[9] = 0x10;
    let status = StatusInformation::try_from(&frame[..]).unwrap();
    assert_eq!(status.errors.bits(), 0x1000);
    assert!(status.errors.contains(ErrorFlag::CoverOpenError));
    assert!(!status.errors.contains(ErrorFlag::PrinterInUseError));
}

#[test]
fn error_flag_bit_positions() {
    let flags = [
        (ErrorFlag::NoMediaError, 0),
        (ErrorFlag::EndOfMediaError, 1),
        (ErrorFlag::CutterJamError, 2),
        (ErrorFlag::PrinterInUseError, 4),
        (ErrorFlag::PrinterTurnedOffError, 5),
        (ErrorFlag::HighVoltageAdapterError, 6),
        (ErrorFlag::FanMotorError, 7),
        (ErrorFlag::ReplaceMediaError, 8),
        (ErrorFlag::ExpansionBufferFullError, 9),
        (ErrorFlag::CommunicationError, 10),
        (ErrorFlag::CommunicationBufferFullError, 11),
        (ErrorFlag::CoverOpenError, 12),
        (ErrorFlag::CancelKeyError, 13),
        (ErrorFlag::FeedingError, 14),
        (ErrorFlag::SystemError, 15),
    ];
    for &(flag, bit) in &flags {
        assert_eq!(flag.bit(), bit);
        let only = ErrorFlags::from_bits_retain(1 << bit);
        for &(other, _) in &flags {
            assert_eq!(only.contains(other), other == flag);
        }
        assert!(!ErrorFlags::from_bits_retain(!(1u16 << bit)).contains(flag));
    }
}

#[test]
fn has_errors_exactly_if_a_bit_is_set() {
    let mut status = sample_status();
    status.errors = ErrorFlags::from_bits_retain(0);
    assert!(!status.has_errors());
    for bit in 0..16 {
        status.errors = ErrorFlags::from_bits_retain(1 << bit);
        assert!(status.has_errors());
    }
}

#[test]
fn media_type_zero_means_no_media() {
    let mut frame = ready_frame();
    frame[11] = 0x00;
    assert_eq!(StatusInformation::try_from(&frame[..]).unwrap().media_type, None);
    frame[11] = 0x0b;
    assert_eq!(
        StatusInformation::try_from(&frame[..]).unwrap().media_type,
        Some(LabelType::DieCut)
    );
    frame[11] = 0x4a;
    assert_eq!(
        StatusInformation::try_from(&frame[..]).unwrap_err().reason,
        "invalid media type code 0x4a"
    );
}

#[test]
fn unknown_model_is_rejected() {
    let mut frame = ready_frame();
    frame[4] = 0x30;
    assert_eq!(
        StatusInformation::try_from(&frame[..]).unwrap_err().reason,
        "invalid model code 0x30"
    );
}

#[test]
fn only_bit_six_of_the_various_mode_byte_is_decoded() {
    let mut frame = ready_frame();
    frame[15] = 0x40;
    assert!(StatusInformation::try_from(&frame[..]).unwrap().mode.auto_cut);
    frame[15] = 0x41;
    assert!(StatusInformation::try_from(&frame[..]).unwrap().mode.auto_cut);
    frame[15] = 0x3f;
    assert!(!StatusInformation::try_from(&frame[..]).unwrap().mode.auto_cut);
    let expected = StatusInformation::try_from(&ready_frame()[..]).unwrap();
    for value in 0..=255u8 {
        frame[15] = value;
        let status = StatusInformation::try_from(&frame[..]).unwrap();
        assert_eq!(status.mode.auto_cut, value & 0x40 != 0, "byte {:#x}", value);
        let mut rest = status;
        rest.mode = expected.mode;
        assert_eq!(rest, expected);
    }
}

#[test]
fn status_type_codes() {
    assert_eq!(StatusType::try_from(0x00).unwrap(), StatusType::StatusRequestReply);
    assert_eq!(StatusType::try_from(0x01).unwrap(), StatusType::PrintingCompleted);
    assert_eq!(StatusType::try_from(0x02).unwrap(), StatusType::ErrorOccurred);
    assert_eq!(StatusType::try_from(0x04).unwrap(), StatusType::TurnedOff);
    assert_eq!(StatusType::try_from(0x05).unwrap(), StatusType::Notification);
    assert_eq!(StatusType::try_from(0x06).unwrap(), StatusType::PhaseChange);
    assert_eq!(StatusType::try_from(0x03).unwrap_err().reason, "invalid status type 0x3");
    assert_eq!(StatusType::try_from(0x07).unwrap_err().reason, "invalid status type 0x7");
    assert_eq!(StatusType::try_from(0x08).unwrap_err().reason, "0x8 is an unused status type");
    assert_eq!(StatusType::try_from(0x20).unwrap_err().reason, "0x20 is an unused status type");
    assert_eq!(StatusType::try_from(0x21).unwrap_err().reason, "0x21 is a reserved status type");
    assert_eq!(StatusType::try_from(0xff).unwrap_err().reason, "0xff is a reserved status type");
    for code in 0..=255u8 {
        match StatusType::try_from(code) {
            Ok(status_type) => assert_eq!(status_type.code(), code),
            Err(_) => assert!(![0u8, 1, 2, 4, 5, 6].contains(&code)),
        }
    }
}

#[test]
fn phase_codes() {
    assert_eq!(Phase::try_from([0, 0, 0]).unwrap(), Phase::Receiving);
    assert_eq!(Phase::try_from([1, 0, 0]).unwrap(), Phase::Printing);
    assert_eq!(Phase::try_from([2, 0, 0]).unwrap_err().reason, "invalid phase state 0x200");
    assert_eq!(Phase::try_from([1, 0, 0x14]).unwrap_err().reason, "invalid phase state 0x1014");
    assert!(Phase::try_from([0, 1, 0]).is_err());
    assert!(Phase::try_from([0, 0, 1]).is_err());
    let mut frame = ready_frame();
    frame[19] = 0x01;
    assert_eq!(StatusInformation::try_from(&frame[..]).unwrap().phase, Phase::Printing);
    frame[20] = 0x01;
    assert!(StatusInformation::try_from(&frame[..]).is_err());
}

#[test]
fn notification_codes() {
    assert_eq!(Notification::try_from(0x00).unwrap(), Notification::Unavailable);
    assert_eq!(Notification::try_from(0x03).unwrap(), Notification::CoolingStarted);
    assert_eq!(Notification::try_from(0x04).unwrap(), Notification::CoolingFinished);
    assert_eq!(
        Notification::try_from(0x01).unwrap_err().reason,
        "invalid notification number 0x1"
    );
    let mut frame = ready_frame();
    frame[22] = 0x04;
    assert_eq!(
        StatusInformation::try_from(&frame[..]).unwrap().notification,
        Notification::CoolingFinished
    );
    frame[22] = 0x05;
    assert!(StatusInformation::try_from(&frame[..]).is_err());
}

#[test]
fn validation_looks_at_media_first() {
    let mut status = StatusInformation::try_from(&ready_frame()[..]).unwrap();
    status.errors = ErrorFlags::from_bits_retain(0x0004);
    status.status_type = StatusType::ErrorOccurred;
    let verdict =
        validate_status(&status, Media::C29, StatusType::StatusRequestReply, Phase::Receiving);
    assert_eq!(
        verdict,
        Err(ProtocolError::MediaMismatch {
            expected_media: Media::C29,
            reported_media: Some(Media::C62),
        })
    );
}

#[test]
fn validation_reports_unknown_media_as_none() {
    let mut status = StatusInformation::try_from(&ready_frame()[..]).unwrap();
    status.media_type = None;
    status.media_width = 0;
    let verdict =
        validate_status(&status, Media::C62, StatusType::StatusRequestReply, Phase::Receiving);
    assert_eq!(
        verdict,
        Err(ProtocolError::MediaMismatch { expected_media: Media::C62, reported_media: None })
    );
}

#[test]
fn validation_looks_at_errors_before_type_and_phase() {
    let mut status = StatusInformation::try_from(&ready_frame()[..]).unwrap();
    status.errors = ErrorFlags::from_bits_retain(0x1000);
    status.status_type = StatusType::ErrorOccurred;
    status.phase = Phase::Printing;
    let verdict = validate_status(&status, Media::C62, StatusType::PhaseChange, Phase::Receiving);
    assert_eq!(verdict, Err(ProtocolError::PrinterError(ErrorFlags::from_bits_retain(0x1000))));
}

#[test]
fn validation_reports_unexpected_type_or_phase() {
    let status = StatusInformation::try_from(&ready_frame()[..]).unwrap();
    assert_eq!(
        validate_status(&status, Media::C62, StatusType::StatusRequestReply, Phase::Receiving),
        Ok(())
    );
    assert_eq!(
        validate_status(&status, Media::C62, StatusType::PhaseChange, Phase::Receiving),
        Err(ProtocolError::UnexpectedStatus {
            expected_type: StatusType::PhaseChange,
            expected_phase: Phase::Receiving,
            actual_type: StatusType::StatusRequestReply,
            actual_phase: Phase::Receiving,
        })
    );
    assert_eq!(
        validate_status(&status, Media::C62, StatusType::StatusRequestReply, Phase::Printing),
        Err(ProtocolError::UnexpectedStatus {
            expected_type: StatusType::StatusRequestReply,
            expected_phase: Phase::Printing,
            actual_type: StatusType::StatusRequestReply,
            actual_phase: Phase::Receiving,
        })
    );
}

#[test]
fn validation_accepts_the_red_black_roll_for_a_62mm_reply() {
    let status = StatusInformation::try_from(&ready_frame()[..]).unwrap();
    assert_eq!(
        validate_status(&status, Media::C62R, StatusType::StatusRequestReply, Phase::Receiving),
        Ok(())
    );
}

#[test]
fn validation_of_die_cut_media_compares_the_length() {
    let mut status = StatusInformation::try_from(&ready_frame()[..]).unwrap();
    status.media_type = Some(LabelType::DieCut);
    status.media_width = 62;
    status.media_length = 29;
    assert_eq!(
        validate_status(&status, Media::D62x29, StatusType::StatusRequestReply, Phase::Receiving),
        Ok(())
    );
    assert_eq!(
        validate_status(&status, Media::D62x100, StatusType::StatusRequestReply, Phase::Receiving),
        Err(ProtocolError::MediaMismatch {
            expected_media: Media::D62x100,
            reported_media: Some(Media::D62x29),
        })
    );
}

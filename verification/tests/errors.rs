use brother_ql::error::{
    ConnectionError, KernelError, PrintError, PrintErrorSource, PrintJobCreationError,
    ProtocolError, StatusError, StatusParsingError, TypstError, UsbError,
};
use brother_ql::media::Media;
use brother_ql::status::{ErrorFlags, Phase, StatusType};

#[test]
fn dimension_mismatch_message_without_height() {
    let err = PrintJobCreationError::DimensionMismatch {
        expected_width: 696,
        actual_width: 700,
        expected_height: None,
        actual_height: 300,
    };
    assert_eq!(
        err.message(),
        "Image dimensions (700x300 px) don't match media requirements (width: 696 px)"
    );
}

#[test]
fn dimension_mismatch_message_with_height() {
    let err = PrintJobCreationError::DimensionMismatch {
        expected_width: 236,
        actual_width: 236,
        expected_height: Some(236),
        actual_height: 237,
    };
    assert_eq!(
        err.message(),
        "Image dimensions (236x237 px) don't match media requirements (width: 236 px, height: 236 px)"
    );
    assert_eq!(
        PrintJobCreationError::dimension_mismatch(0, 4294967295, Some(10), 0),
        "Image dimensions (4294967295x0 px) don't match media requirements (width: 0 px, height: 10 px)"
    );
}

#[test]
fn image_error_message_has_the_decoders_text() {
    let inner = image::ImageError::IoError(std::io::Error::new(
        std::io::ErrorKind::NotFound,
        "no such image",
    ));
    let text = inner.to_string();
    let err = PrintJobCreationError::from_image_error(inner);
    assert!(matches!(err, PrintJobCreationError::ImageError(_)));
    assert_eq!(err.message(), format!("Image error: {}", text));
}

#[test]
fn usb_error_messages() {
    assert_eq!(
        UsbError::DeviceNotFound { vendor_id: 0x04f9, product_id: 0x209d }.message(),
        "USB device not found (vendor: 0x04f9, product: 0x209d)"
    );
    assert_eq!(
        UsbError::DeviceNotFound { vendor_id: 0, product_id: 0xffff }.message(),
        "USB device not found (vendor: 0x0000, product: 0xffff)"
    );
    assert_eq!(
        UsbError::IncompleteWrite.message(),
        "Incomplete USB write occured! Please report this issue!"
    );
    assert_eq!(UsbError::from_rusb(rusb::Error::Timeout).message(), rusb::Error::Timeout.to_string());
    assert!(matches!(UsbError::from_rusb(rusb::Error::Busy), UsbError::Rusb(rusb::Error::Busy)));
}

#[test]
fn kernel_error_messages() {
    let inner = std::io::Error::new(std::io::ErrorKind::PermissionDenied, "not allowed");
    let text = inner.to_string();
    let err = KernelError::from_io(inner);
    assert!(matches!(err, KernelError::KernelIOError(_)));
    assert_eq!(err.message(), format!("Kernel IO error: {}", text));
    assert_eq!(
        KernelError::IncompleteWrite.message(),
        "Incomplete write occured! Please report this issue!"
    );
    assert_eq!(KernelError::KernelIOTimeout.message(), "Kernel IO operation timed out");
}

#[test]
fn status_error_messages() {
    let parsing = StatusParsingError { reason: "invalid size of 3B".to_string() };
    assert_eq!(parsing.message(), "Failed to parse status information: invalid size of 3B");
    let err: StatusError<KernelError> = StatusError::Parsing(parsing);
    assert_eq!(err.message(), "Failed to parse status information: invalid size of 3B");
    let err: StatusError<KernelError> = StatusError::NoResponse;
    assert_eq!(
        err.message(),
        "Printer did not respond with a status information reply after being queried"
    );
    let err = StatusError::Connection(KernelError::KernelIOTimeout);
    assert_eq!(err.message(), "Kernel IO operation timed out");
}

#[test]
fn protocol_error_messages() {
    assert_eq!(
        ProtocolError::PrinterError(ErrorFlags::from_bits_retain(0x1001)).message(),
        "Printer reported errors: ErrorFlags(0x1001)"
    );
    assert_eq!(
        ProtocolError::UnexpectedStatus {
            expected_type: StatusType::PhaseChange,
            expected_phase: Phase::Printing,
            actual_type: StatusType::StatusRequestReply,
            actual_phase: Phase::Receiving,
        }
        .message(),
        "Unexpected printer status: expected PhaseChange/Printing, got StatusRequestReply/Receiving"
    );
    assert_eq!(
        ProtocolError::MediaMismatch {
            expected_media: Media::C62,
            reported_media: Some(Media::D17x54),
        }
        .message(),
        "Print job requires C62 tape but printer reported Some(D17x54)"
    );
    assert_eq!(
        ProtocolError::MediaMismatch { expected_media: Media::C62R, reported_media: None }
            .message(),
        "Print job requires C62R tape but printer reported None"
    );
}

#[test]
fn print_error_message_names_the_page() {
    let err = PrintError::with_page(
        PrintErrorSource::<UsbError>::Protocol(ProtocolError::PrinterError(
            ErrorFlags::from_bits_retain(4),
        )),
        2,
    );
    assert_eq!(err.message(), "Print error on page 2: Printer reported errors: ErrorFlags(0x0004)");
    let err = PrintError::with_page(PrintErrorSource::Connection(UsbError::IncompleteWrite), 0);
    assert_eq!(
        err.message(),
        "Print error on page 0: Incomplete USB write occured! Please report this issue!"
    );
    let err = PrintError::with_page(
        PrintErrorSource::<KernelError>::Status(StatusError::NoResponse),
        4000000000,
    );
    assert_eq!(
        err.message(),
        "Print error on page 4000000000: Printer did not respond with a status information reply after being queried"
    );
}

#[test]
fn status_names() {
    assert_eq!(StatusType::ErrorOccurred.name(), "ErrorOccurred");
    assert_eq!(StatusType::TurnedOff.name(), "TurnedOff");
    assert_eq!(StatusType::Notification.name(), "Notification");
    assert_eq!(StatusType::PrintingCompleted.name(), "PrintingCompleted");
    assert_eq!(Phase::Receiving.name(), "Receiving");
    assert_eq!(Phase::Printing.name(), "Printing");
    assert_eq!(ErrorFlags::from_bits_retain(0).describe(), "ErrorFlags(0x0000)");
    assert_eq!(ErrorFlags::from_bits_retain(0xabcd).describe(), "ErrorFlags(0xabcd)");
}

#[test]
fn typst_error_message() {
    let err = TypstError { reason: "no pages".to_string() };
    assert_eq!(err.message(), "Couldn't create test-label using typst: no pages");
}

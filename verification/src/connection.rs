//! Talking to a printer.
//!
//! The library does not read or write itself. It decides: given what the
//! transport has just done, it says what has to be done next, or what went
//! wrong. A driver loop around a transport carries the decisions out.

pub mod kernel_connection;
pub mod printer_connection;
pub mod usb_connection;

pub use printer_connection::{
    PrintSession, QueryProgress, QueryStep, ReadStep, Request, SessionStep, StatusQuery,
    StatusReader, validate_status,
};
pub use usb_connection::{
    EndpointDirection, UsbAlternate, UsbConnectionInfo, UsbEndpoint, UsbInterface,
    find_printer_endpoints,
};

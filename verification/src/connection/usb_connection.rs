//! What the USB transport has to decide: which device to open, and how.

use vstd::prelude::*;
use crate::error::UsbError;
use crate::printer::{BROTHER_VENDOR_ID, PrinterModel};

verus! {

/// Endpoint the printers take data on.
pub const ENDPOINT_OUT: u8 = 0x02;

/// Endpoint the printers send their replies on.
pub const ENDPOINT_IN: u8 = 0x81;

/// Time in milliseconds after which a transfer is given up.
pub const TRANSFER_TIMEOUT_MS: u64 = 5000;

/// How to reach a printer over USB.
#[derive(Debug, Clone, Copy, PartialEq, Eq, Structural)]
pub struct UsbConnectionInfo {
    /// USB vendor id.
    pub vendor_id: u16,
    /// USB product id, which tells the model.
    pub product_id: u16,
    /// Number of the interface to claim.
    pub interface: u8,
    /// Address of the endpoint to write to.
    pub endpoint_out: u8,
    /// Address of the endpoint to read from.
    pub endpoint_in: u8,
    /// Time in milliseconds after which a transfer is given up.
    pub timeout_ms: u64,
}

impl UsbConnectionInfo {
    /// How to reach a printer of the given model.
    pub open spec fn spec_from_model(model: PrinterModel) -> UsbConnectionInfo {
        UsbConnectionInfo {
            vendor_id: BROTHER_VENDOR_ID,
            product_id: model.spec_product_id(),
            interface: 0,
            endpoint_out: ENDPOINT_OUT,
            endpoint_in: ENDPOINT_IN,
            timeout_ms: TRANSFER_TIMEOUT_MS,
        }
    }

    /// How to reach a printer of the given model: Brother's vendor id and the
    /// model's product id, interface 0, endpoints `0x02` out and `0x81` in,
    /// and five seconds for each transfer.
    #[verifier::when_used_as_spec(spec_from_model)]
    pub fn from_model(model: PrinterModel) -> (info: UsbConnectionInfo)
        ensures
            info == UsbConnectionInfo::spec_from_model(model),
    {
        UsbConnectionInfo {
            vendor_id: BROTHER_VENDOR_ID,
            product_id: model.product_id(),
            interface: 0,
            endpoint_out: ENDPOINT_OUT,
            endpoint_in: ENDPOINT_IN,
            timeout_ms: TRANSFER_TIMEOUT_MS,
        }
    }

    /// Whether a device with the given ids is the one this info describes.
    pub open spec fn describes(&self, ids: (u16, u16)) -> bool {
        ids.0 == self.vendor_id && ids.1 == self.product_id
    }

    /// Finds the device to open among the attached devices, each given by its
    /// vendor and product id: the first with the ids of this info.
    ///
    /// Fails with `DeviceNotFound` if no attached device has them.
    pub fn find_device(&self, devices: &Vec<(u16, u16)>) -> (res: Result<usize, UsbError>)
        ensures
            match res {
                Ok(index) => {
                    &&& index < devices@.len()
                    &&& self.describes(devices@[index as int])
                    &&& forall|i: int| 0 <= i < index ==> !self.describes(#[trigger] devices@[i])
                },
                Err(e) => {
                    &&& forall|i: int|
                        0 <= i < devices@.len() ==> !self.describes(#[trigger] devices@[i])
                    &&& e == (UsbError::DeviceNotFound {
                        vendor_id: self.vendor_id,
                        product_id: self.product_id,
                    })
                },
            },
    {
        let mut i: usize = 0;
        while i < devices.len()
            invariant
                i <= devices@.len(),
                forall|j: int| 0 <= j < i ==> !self.describes(#[trigger] devices@[j]),
            decreases devices@.len() - i,
        {
            let ids = devices[i];
            if ids.0 == self.vendor_id && ids.1 == self.product_id {
                return Ok(i);
            }
            i += 1;
        }
        Err(UsbError::DeviceNotFound { vendor_id: self.vendor_id, product_id: self.product_id })
    }

    /// Whether a device with the given ids is a printer this library knows.
    pub open spec fn is_known_printer(ids: (u16, u16)) -> bool {
        ids.0 == BROTHER_VENDOR_ID && PrinterModel::spec_from_product_id(ids.1).is_some()
    }

    /// Picks a printer among the attached devices, each given by its vendor
    /// and product id: the first that is a Brother device with the product id
    /// of a known model. `None` if there is no such device.
    pub fn discover(devices: &Vec<(u16, u16)>) -> (res: Option<UsbConnectionInfo>)
        ensures
            match res {
                Some(info) => exists|index: int|
                    {
                        &&& 0 <= index < devices@.len()
                        &&& UsbConnectionInfo::is_known_printer(#[trigger] devices@[index])
                        &&& forall|i: int|
                            0 <= i < index ==> !UsbConnectionInfo::is_known_printer(
                                #[trigger] devices@[i],
                            )
                        &&& Some(info) == match PrinterModel::spec_from_product_id(devices@[index].1) {
                            Some(model) => Some(UsbConnectionInfo::spec_from_model(model)),
                            None => None,
                        }
                    },
                None => forall|i: int|
                    0 <= i < devices@.len() ==> !UsbConnectionInfo::is_known_printer(
                        #[trigger] devices@[i],
                    ),
            },
    {
        let mut i: usize = 0;
        while i < devices.len()
            invariant
                i <= devices@.len(),
                forall|j: int|
                    0 <= j < i ==> !UsbConnectionInfo::is_known_printer(#[trigger] devices@[j]),
            decreases devices@.len() - i,
        {
            let ids = devices[i];
            if ids.0 == BROTHER_VENDOR_ID {
                match PrinterModel::from_product_id(ids.1) {
                    Some(model) => {
                        return Some(UsbConnectionInfo::from_model(model));
                    },
                    None => {},
                }
            }
            i += 1;
        }
        None
    }
}

impl UsbError {
    /// The error for a failure that the USB library reported.
    pub fn from_rusb(error: rusb::Error) -> (res: UsbError)
        ensures
            res == UsbError::Rusb(error),
    {
        UsbError::Rusb(error)
    }

    /// Judges a write: it succeeded if the device took every byte it was
    /// given, and is an `IncompleteWrite` if it took fewer or more.
    pub fn check_write(bytes_written: usize, len: usize) -> (res: Result<(), UsbError>)
        ensures
            bytes_written == len ==> res is Ok,
            bytes_written != len ==> res == Err::<(), UsbError>(UsbError::IncompleteWrite),
    {
        if bytes_written != len {
            return Err(UsbError::IncompleteWrite);
        }
        Ok(())
    }
}

/// Interface class of printers.
pub const PRINTER_CLASS: u8 = 7;

/// The direction of an endpoint, seen from the host.
#[derive(Debug, Clone, Copy, PartialEq, Eq, Structural)]
pub enum EndpointDirection {
    /// From the device to the host.
    In,
    /// From the host to the device.
    Out,
    /// Not told.
    Unknown,
}

/// An endpoint of an interface, as a device describes it.
#[derive(Debug, Clone, Copy, PartialEq, Eq, Structural)]
pub struct UsbEndpoint {
    /// The direction of the endpoint.
    pub direction: EndpointDirection,
    /// The number of the endpoint.
    pub number: u8,
}

/// One of the settings an interface can be switched to.
#[derive(Debug, Clone, PartialEq, Eq)]
pub struct UsbAlternate {
    /// The class of the interface in this setting.
    pub interface_class: u8,
    /// The endpoints of the interface in this setting.
    pub endpoints: Vec<UsbEndpoint>,
}

/// An interface of a device, as the device describes it.
#[derive(Debug, Clone, PartialEq, Eq)]
pub struct UsbInterface {
    /// The number of the interface.
    pub interface_number: u8,
    /// The settings of the interface.
    pub alternates: Vec<UsbAlternate>,
}

/// The number of the last of the first `count` endpoints that has the given
/// direction, if there is one.
pub open spec fn last_endpoint(
    endpoints: Seq<UsbEndpoint>,
    direction: EndpointDirection,
    count: int,
) -> Option<u8>
    decreases count,
{
    if count <= 0 {
        None
    } else if endpoints[count - 1].direction == direction {
        Some(endpoints[count - 1].number)
    } else {
        last_endpoint(endpoints, direction, count - 1)
    }
}

/// The endpoints to print through that a setting offers: its last outgoing
/// and its last incoming endpoint, if it is a setting of the printer class
/// and has both.
pub open spec fn printer_endpoints(alternate: UsbAlternate) -> Option<(u8, u8)> {
    if alternate.interface_class != PRINTER_CLASS {
        None
    } else {
        match (
            last_endpoint(alternate.endpoints@, EndpointDirection::Out, alternate.endpoints@.len() as int),
            last_endpoint(alternate.endpoints@, EndpointDirection::In, alternate.endpoints@.len() as int),
        ) {
            (Some(endpoint_out), Some(endpoint_in)) => Some((endpoint_out, endpoint_in)),
            _ => None,
        }
    }
}

/// The endpoints of the first setting from `from` on that offers any.
pub open spec fn first_printer_alternate(alternates: Seq<UsbAlternate>, from: int) -> Option<
    (u8, u8),
>
    decreases alternates.len() - from,
{
    if from < 0 || from >= alternates.len() {
        None
    } else {
        match printer_endpoints(alternates[from]) {
            Some(endpoints) => Some(endpoints),
            None => first_printer_alternate(alternates, from + 1),
        }
    }
}

/// The number of the first interface from `from` on that has a setting to
/// print through, with the endpoints of its first such setting.
pub open spec fn first_printer_interface(interfaces: Seq<UsbInterface>, from: int) -> Option<
    (u8, u8, u8),
>
    decreases interfaces.len() - from,
{
    if from < 0 || from >= interfaces.len() {
        None
    } else {
        match first_printer_alternate(interfaces[from].alternates@, 0) {
            Some((endpoint_out, endpoint_in)) => Some(
                (interfaces[from].interface_number, endpoint_out, endpoint_in),
            ),
            None => first_printer_interface(interfaces, from + 1),
        }
    }
}

/// The endpoints to print through that a setting offers.
fn endpoints_of(alternate: &UsbAlternate) -> (res: Option<(u8, u8)>)
    ensures
        res == printer_endpoints(*alternate),
{
    if alternate.interface_class != PRINTER_CLASS {
        return None;
    }
    let mut endpoint_out: Option<u8> = None;
    let mut endpoint_in: Option<u8> = None;
    let mut k: usize = 0;
    while k < alternate.endpoints.len()
        invariant
            k <= alternate.endpoints@.len(),
            endpoint_out == last_endpoint(alternate.endpoints@, EndpointDirection::Out, k as int),
            endpoint_in == last_endpoint(alternate.endpoints@, EndpointDirection::In, k as int),
        decreases alternate.endpoints@.len() - k,
    {
        let endpoint = alternate.endpoints[k];
        match endpoint.direction {
            EndpointDirection::Out => {
                endpoint_out = Some(endpoint.number);
            },
            EndpointDirection::In => {
                endpoint_in = Some(endpoint.number);
            },
            EndpointDirection::Unknown => {},
        }
        k += 1;
    }
    match (endpoint_out, endpoint_in) {
        (Some(endpoint_out), Some(endpoint_in)) => Some((endpoint_out, endpoint_in)),
        _ => None,
    }
}

/// Finds the interface and the endpoints to print through among the
/// interfaces of a device.
///
/// The interfaces and their settings are gone through in order. The first
/// setting of the printer class that has an outgoing and an incoming endpoint
/// decides: the result is the number of its interface, its last outgoing and
/// its last incoming endpoint. `None` if no setting will do.
pub fn find_printer_endpoints(interfaces: &Vec<UsbInterface>) -> (res: Option<(u8, u8, u8)>)
    ensures
        res == first_printer_interface(interfaces@, 0),
{
    let mut i: usize = 0;
    while i < interfaces.len()
        invariant
            i <= interfaces@.len(),
            first_printer_interface(interfaces@, 0) == first_printer_interface(interfaces@, i as int),
        decreases interfaces@.len() - i,
    {
        let interface = &interfaces[i];
        let mut j: usize = 0;
        while j < interface.alternates.len()
            invariant
                i < interfaces@.len(),
                *interface == interfaces@[i as int],
                first_printer_interface(interfaces@, 0) == first_printer_interface(
                    interfaces@,
                    i as int,
                ),
                j <= interface.alternates@.len(),
                first_printer_alternate(interface.alternates@, 0) == first_printer_alternate(
                    interface.alternates@,
                    j as int,
                ),
            decreases interface.alternates@.len() - j,
        {
            match endpoints_of(&interface.alternates[j]) {
                Some((endpoint_out, endpoint_in)) => {
                    return Some((interface.interface_number, endpoint_out, endpoint_in));
                },
                None => {},
            }
            j += 1;
        }
        i += 1;
    }
    None
}

} // verus!

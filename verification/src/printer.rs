//! The printer models, with the numbers by which each is recognised: the USB
//! product id and the model code of its status replies.

use vstd::prelude::*;
use crate::error::StatusParsingError;
use crate::text::{hex_text, with_hex};

verus! {

/// USB vendor id of Brother Industries.
pub const BROTHER_VENDOR_ID: u16 = 0x04f9;

/// The supported printer models.
#[derive(Debug, Clone, Copy, PartialEq, Eq, Hash, Structural)]
pub enum PrinterModel {
    /// QL-560
    QL560,
    /// QL-570
    QL570,
    /// QL-580N
    QL580N,
    /// QL-600
    QL600,
    /// QL-650TD
    QL650TD,
    /// QL-700
    QL700,
    /// QL-710W
    QL710W,
    /// QL-720NW
    QL720NW,
    /// QL-800
    QL800,
    /// QL-810W
    QL810W,
    /// QL-820NWB
    QL820NWB,
}

impl PrinterModel {
    /// The USB product id of the model.
    pub open spec fn spec_product_id(self) -> u16 {
        match self {
            PrinterModel::QL560 => 0x2027,
            PrinterModel::QL570 => 0x2028,
            PrinterModel::QL580N => 0x2029,
            PrinterModel::QL600 => 0x20c0,
            PrinterModel::QL650TD => 0x201b,
            PrinterModel::QL700 => 0x2042,
            PrinterModel::QL710W => 0x2043,
            PrinterModel::QL720NW => 0x2044,
            PrinterModel::QL800 => 0x209b,
            PrinterModel::QL810W => 0x209c,
            PrinterModel::QL820NWB => 0x209d,
        }
    }

    /// The USB product id of the model.
    #[verifier::when_used_as_spec(spec_product_id)]
    pub fn product_id(self) -> (res: u16)
        ensures
            res == self.spec_product_id(),
    {
        match self {
            PrinterModel::QL560 => 0x2027,
            PrinterModel::QL570 => 0x2028,
            PrinterModel::QL580N => 0x2029,
            PrinterModel::QL600 => 0x20c0,
            PrinterModel::QL650TD => 0x201b,
            PrinterModel::QL700 => 0x2042,
            PrinterModel::QL710W => 0x2043,
            PrinterModel::QL720NW => 0x2044,
            PrinterModel::QL800 => 0x209b,
            PrinterModel::QL810W => 0x209c,
            PrinterModel::QL820NWB => 0x209d,
        }
    }

    /// The model code that the printer puts into its status replies.
    pub open spec fn spec_model_code(self) -> u8 {
        match self {
            PrinterModel::QL560 => 0x31,
            PrinterModel::QL570 => 0x32,
            PrinterModel::QL580N => 0x33,
            PrinterModel::QL600 => 0x47,
            PrinterModel::QL650TD => 0x51,
            PrinterModel::QL700 => 0x35,
            PrinterModel::QL710W => 0x36,
            PrinterModel::QL720NW => 0x37,
            PrinterModel::QL800 => 0x38,
            PrinterModel::QL810W => 0x39,
            PrinterModel::QL820NWB => 0x41,
        }
    }

    /// The model code that the printer puts into its status replies.
    #[verifier::when_used_as_spec(spec_model_code)]
    pub fn model_code(self) -> (res: u8)
        ensures
            res == self.spec_model_code(),
    {
        match self {
            PrinterModel::QL560 => 0x31,
            PrinterModel::QL570 => 0x32,
            PrinterModel::QL580N => 0x33,
            PrinterModel::QL600 => 0x47,
            PrinterModel::QL650TD => 0x51,
            PrinterModel::QL700 => 0x35,
            PrinterModel::QL710W => 0x36,
            PrinterModel::QL720NW => 0x37,
            PrinterModel::QL800 => 0x38,
            PrinterModel::QL810W => 0x39,
            PrinterModel::QL820NWB => 0x41,
        }
    }

    /// The model with the given USB product id, if any.
    pub open spec fn spec_from_product_id(value: u16) -> Option<PrinterModel> {
        if value == 0x2027 {
            Some(PrinterModel::QL560)
        } else if value == 0x2028 {
            Some(PrinterModel::QL570)
        } else if value == 0x2029 {
            Some(PrinterModel::QL580N)
        } else if value == 0x20c0 {
            Some(PrinterModel::QL600)
        } else if value == 0x201b {
            Some(PrinterModel::QL650TD)
        } else if value == 0x2042 {
            Some(PrinterModel::QL700)
        } else if value == 0x2043 {
            Some(PrinterModel::QL710W)
        } else if value == 0x2044 {
            Some(PrinterModel::QL720NW)
        } else if value == 0x209b {
            Some(PrinterModel::QL800)
        } else if value == 0x209c {
            Some(PrinterModel::QL810W)
        } else if value == 0x209d {
            Some(PrinterModel::QL820NWB)
        } else {
            None
        }
    }

    /// The model with the given USB product id, if any.
    #[verifier::when_used_as_spec(spec_from_product_id)]
    pub fn from_product_id(value: u16) -> (res: Option<PrinterModel>)
        ensures
            res == PrinterModel::spec_from_product_id(value),
    {
        if value == 0x2027 {
            Some(PrinterModel::QL560)
        } else if value == 0x2028 {
            Some(PrinterModel::QL570)
        } else if value == 0x2029 {
            Some(PrinterModel::QL580N)
        } else if value == 0x20c0 {
            Some(PrinterModel::QL600)
        } else if value == 0x201b {
            Some(PrinterModel::QL650TD)
        } else if value == 0x2042 {
            Some(PrinterModel::QL700)
        } else if value == 0x2043 {
            Some(PrinterModel::QL710W)
        } else if value == 0x2044 {
            Some(PrinterModel::QL720NW)
        } else if value == 0x209b {
            Some(PrinterModel::QL800)
        } else if value == 0x209c {
            Some(PrinterModel::QL810W)
        } else if value == 0x209d {
            Some(PrinterModel::QL820NWB)
        } else {
            None
        }
    }

    /// The model that a status reply's model code stands for, if any.
    pub open spec fn from_model_code(value: u8) -> Option<PrinterModel> {
        if value == 0x31 {
            Some(PrinterModel::QL560)
        } else if value == 0x32 {
            Some(PrinterModel::QL570)
        } else if value == 0x33 {
            Some(PrinterModel::QL580N)
        } else if value == 0x47 {
            Some(PrinterModel::QL600)
        } else if value == 0x51 {
            Some(PrinterModel::QL650TD)
        } else if value == 0x35 {
            Some(PrinterModel::QL700)
        } else if value == 0x36 {
            Some(PrinterModel::QL710W)
        } else if value == 0x37 {
            Some(PrinterModel::QL720NW)
        } else if value == 0x38 {
            Some(PrinterModel::QL800)
        } else if value == 0x39 {
            Some(PrinterModel::QL810W)
        } else if value == 0x41 {
            Some(PrinterModel::QL820NWB)
        } else {
            None
        }
    }

    /// Why a byte that is the code of no model is rejected.
    pub open spec fn rejection(value: u8) -> Seq<char> {
        "invalid model code "@ + hex_text(value)
    }

    /// Decodes the model code of a status reply.
    ///
    /// Succeeds exactly on the codes of the supported models.
    pub fn try_from(value: u8) -> (res: Result<PrinterModel, StatusParsingError>)
        ensures
            match res {
                Ok(model) => PrinterModel::from_model_code(value) == Some(model),
                Err(e) => PrinterModel::from_model_code(value).is_none() && e.reason@
                    == PrinterModel::rejection(value),
            },
    {
        if value == 0x31 {
            Ok(PrinterModel::QL560)
        } else if value == 0x32 {
            Ok(PrinterModel::QL570)
        } else if value == 0x33 {
            Ok(PrinterModel::QL580N)
        } else if value == 0x47 {
            Ok(PrinterModel::QL600)
        } else if value == 0x51 {
            Ok(PrinterModel::QL650TD)
        } else if value == 0x35 {
            Ok(PrinterModel::QL700)
        } else if value == 0x36 {
            Ok(PrinterModel::QL710W)
        } else if value == 0x37 {
            Ok(PrinterModel::QL720NW)
        } else if value == 0x38 {
            Ok(PrinterModel::QL800)
        } else if value == 0x39 {
            Ok(PrinterModel::QL810W)
        } else if value == 0x41 {
            Ok(PrinterModel::QL820NWB)
        } else {
            Err(StatusParsingError { reason: with_hex("invalid model code ", value) })
        }
    }
}

/// Each model is found again by its product id and by its model code, so no
/// two models share either number.
pub proof fn lemma_model_numbers_unique(a: PrinterModel, b: PrinterModel)
    ensures
        PrinterModel::spec_from_product_id(a.spec_product_id()) == Some(a),
        PrinterModel::from_model_code(a.spec_model_code()) == Some(a),
        a.spec_product_id() == b.spec_product_id() ==> a == b,
        a.spec_model_code() == b.spec_model_code() ==> a == b,
{
}

/// A number that is understood is the number of the model it gives.
pub proof fn lemma_model_numbers_exact(product_id: u16, model_code: u8)
    ensures
        match PrinterModel::spec_from_product_id(product_id) {
            Some(model) => model.spec_product_id() == product_id,
            None => forall|model: PrinterModel| model.spec_product_id() != product_id,
        },
        match PrinterModel::from_model_code(model_code) {
            Some(model) => model.spec_model_code() == model_code,
            None => forall|model: PrinterModel| model.spec_model_code() != model_code,
        },
{
}

} // verus!

//! Errors that the library's logic reports.
use vstd::prelude::*;

use crate::text::{push_str, u64_to_decimal, decimal_seq};

verus! {

/// A failed librados or librbd call: the operation and the negative code it returned.
#[derive(Debug)]
pub struct RadosError {
    pub operation: String,
    pub code: i32,
}

/// The text of an integer in decimal notation, with a minus sign when negative.
pub open spec fn signed_decimal_seq(n: int) -> Seq<char> {
    if n < 0 {
        seq!['-'] + decimal_seq((-n) as nat)
    } else {
        decimal_seq(n as nat)
    }
}

impl RadosError {
    /// The message of the error, given the name of its code from the system's error
    /// table: "librados error during OPERATION: NAME (CODE)".
    pub fn describe(&self, code_name: &str) -> (r: String)
        ensures
            r@ == "librados error during "@ + self.operation@ + ": "@ + code_name@ + " ("@
                + signed_decimal_seq(self.code as int) + ")"@,
    {
        let mut r = String::new();
        push_str(&mut r, "librados error during ");
        push_str(&mut r, self.operation.as_str());
        push_str(&mut r, ": ");
        push_str(&mut r, code_name);
        push_str(&mut r, " (");
        if self.code < 0 {
            let magnitude: u64 = if self.code == i32::MIN {
                2147483648u64
            } else {
                (-self.code) as u64
            };
            push_str(&mut r, "-");
            let digits = u64_to_decimal(magnitude);
            push_str(&mut r, digits.as_str());
            proof {
                reveal_strlit("-");
            }
        } else {
            let digits = u64_to_decimal(self.code as u64);
            push_str(&mut r, digits.as_str());
        }
        push_str(&mut r, ")");
        r
    }
}

/// What can go wrong in the library's logic. Errors of outside crates that the logic
/// meets are kept as they came.
#[derive(Debug)]
pub enum Error {
    NoStatusSubresource(String),
    Rados(RadosError),
    Volumelocked,
    ScheduleFailed(String),
    StorageLocationParse(String),
    OvnCentralNodesNotFound,
    OvnNotFound(String, String),
    OvnDeserializationFailed,
    OvnConflict(String),
    ParseHumanize(humanize_rs::ParseError),
    ParseNetwork(ipnet::AddrParseError),
    NetnsCreateFailed(String),
    CommandFailed(Vec<String>, String),
    InstanceMatchFailed(String),
    UserdataNotSpecified,
    ConfigMapNotFound(String),
    ConfigMapInvalid(String, String),
    VniMapping(String),
    Timeout(String),
    UnexpectedExit(String),
    NotImplemented(String),
}

/// The error type of `humanize_rs`'s parsers.
#[verifier::external_type_specification]
#[verifier::external_body]
pub struct ExHumanizeParseError(humanize_rs::ParseError);

/// The error type of `ipnet`'s address parsers.
#[verifier::external_type_specification]
#[verifier::external_body]
pub struct ExAddrParseError(ipnet::AddrParseError);

} // verus!

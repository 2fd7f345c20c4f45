use vstd::prelude::*;

verus! {

/// Host status: operation already in progress or completed.
pub const BLE_HS_EALREADY: u32 = 2;

/// Host status: one or more arguments are invalid.
pub const BLE_HS_EINVAL: u32 = 3;

/// Host status: no open connection with the specified handle.
pub const BLE_HS_ENOTCONN: u32 = 7;

/// Host status: operation completed successfully (no more results).
pub const BLE_HS_EDONE: u32 = 14;

/// Host status: operation cannot be performed until a procedure completes.
pub const BLE_HS_EBUSY: u32 = 15;

/// Host status: transmission stalled (accepted, flow paused).
pub const BLE_HS_ESTALLED: u32 = 31;

/// Generic failure code used by `fail`.
pub const FAIL_CODE: u32 = 0xFFFF;

/// Base of the ATT protocol error band.
pub const BLE_HS_ERR_ATT_BASE: u32 = 0x100;

/// Base of the HCI (link) error band.
pub const BLE_HS_ERR_HCI_BASE: u32 = 0x200;

/// HCI error: PIN or key missing.
pub const BLE_ERR_PINKEY_MISSING: u32 = 0x06;

/// A status code counts as success when it is zero, "already", or "done".
pub open spec fn is_success_code(code: u32) -> bool {
    code == 0 || code == BLE_HS_EALREADY || code == BLE_HS_EDONE
}

/// Tests whether a status code counts as success.
pub fn is_success(code: u32) -> (r: bool)
    ensures
        r == is_success_code(code),
{
    code == 0 || code == BLE_HS_EALREADY || code == BLE_HS_EDONE
}

/// An error of the host stack: a non-zero status code.
#[derive(Clone, Copy, PartialEq, Eq, Structural, Debug, Hash)]
pub struct BLEError {
    code: u32,
}

impl BLEError {
    /// The status code, as a number.
    pub closed spec fn spec_code(self) -> u32 {
        self.code
    }

    /// Every error carries a non-zero code.
    pub closed spec fn wf(self) -> bool {
        self.code != 0
    }

    /// Result of converting a status code.
    pub open spec fn convert_spec(code: u32) -> Result<(), BLEError> {
        if is_success_code(code) {
            Ok(())
        } else {
            Err(BLEError::from_code_spec(code))
        }
    }

    pub closed spec fn from_code_spec(code: u32) -> BLEError {
        BLEError { code }
    }

    pub proof fn lemma_from_code(code: u32)
        ensures
            BLEError::from_code_spec(code).spec_code() == code,
            code != 0 ==> BLEError::from_code_spec(code).wf(),
    {
    }

    /// A generic failure.
    pub fn fail() -> (r: Result<(), BLEError>)
        ensures
            r == BLEError::convert_spec(FAIL_CODE),
            r is Err,
            r->Err_0.spec_code() == FAIL_CODE,
    {
        Self::convert(FAIL_CODE)
    }

    /// Builds an error from a non-zero code.
    pub fn from_non_zero(error: u32) -> (r: BLEError)
        requires
            error != 0,
        ensures
            r.spec_code() == error,
            r.wf(),
            r == BLEError::from_code_spec(error),
    {
        BLEError { code: error }
    }

    /// Success for zero, "already" and "done"; otherwise an error with that code.
    pub fn convert(error: u32) -> (r: Result<(), BLEError>)
        ensures
            r == BLEError::convert_spec(error),
            r is Ok <==> is_success_code(error),
            r is Err ==> r->Err_0.spec_code() == error && r->Err_0.wf(),
    {
        if is_success(error) {
            Ok(())
        } else {
            Err(BLEError { code: error })
        }
    }

    /// Like `convert`, handing back `value` on success.
    pub fn check_and_return<T>(error: u32, value: T) -> (r: Result<T, BLEError>)
        ensures
            r is Ok <==> is_success_code(error),
            r is Ok ==> r->Ok_0 == value,
            r is Err ==> r->Err_0 == BLEError::from_code_spec(error) && r->Err_0.wf(),
    {
        if is_success(error) {
            Ok(value)
        } else {
            Err(BLEError { code: error })
        }
    }

    /// The description of the code, when it has one.
    pub fn description(&self) -> (r: Option<&'static str>)
        ensures
            r is Some <==> is_described(self.spec_code()),
    {
        return_code_to_string(self.code)
    }

    /// The status code.
    pub fn code(&self) -> (r: u32)
        ensures
            r == self.spec_code(),
    {
        self.code
    }
}

/// A raw status code that a host call returned.
#[derive(Clone, Copy, PartialEq, Eq, Structural, Debug, Hash)]
pub struct BLEReturnCode(pub u32);

impl BLEReturnCode {
    pub open spec fn convert_spec(code: u32) -> Result<(), BLEReturnCode> {
        if is_success_code(code) {
            Ok(())
        } else {
            Err(BLEReturnCode(code))
        }
    }

    /// A generic failure.
    pub fn fail() -> (r: Result<(), BLEReturnCode>)
        ensures
            r == Err::<(), BLEReturnCode>(BLEReturnCode(FAIL_CODE)),
    {
        Self::convert(FAIL_CODE)
    }

    /// `None` for zero, otherwise the code.
    pub fn from(error: u32) -> (r: Option<BLEReturnCode>)
        ensures
            error == 0 ==> r is None,
            error != 0 ==> r == Some(BLEReturnCode(error)),
    {
        if error == 0 {
            None
        } else {
            Some(BLEReturnCode(error))
        }
    }

    /// Like `convert`, handing back `value` on success.
    pub fn check_and_return<T>(error: u32, value: T) -> (r: Result<T, BLEReturnCode>)
        ensures
            r is Ok <==> is_success_code(error),
            r is Ok ==> r->Ok_0 == value,
            r is Err ==> r->Err_0 == BLEReturnCode(error),
    {
        if is_success(error) {
            Ok(value)
        } else {
            Err(BLEReturnCode(error))
        }
    }

    /// Success for zero, "already" and "done"; otherwise the code as an error.
    pub fn convert(error: u32) -> (r: Result<(), BLEReturnCode>)
        ensures
            r == BLEReturnCode::convert_spec(error),
    {
        Self::check_and_return(error, ())
    }
}

/// Whether a status code has a description.
pub open spec fn is_described(rc: u32) -> bool {
    rc == 0x2 || rc == 0x3 || rc == 0x4 || rc == 0x5 || rc == 0x6 || rc == 0x7 || rc == 0x8 || rc == 0x9 || rc == 0xA || rc == 0xB || rc == 0xC || rc == 0xD || rc == 0xE || rc == 0xF || rc == 0x10 || rc == 0x11 || rc == 0x12 || rc == 0x13 || rc == 0x14 || rc == 0x15 || rc == 0x16 || rc == 0x17 || rc == 0x18 || rc == 0x19 || rc == 0x1A || rc == 0x1B || rc == 0x1C || rc == 0x101 || rc == 0x102 || rc == 0x103 || rc == 0x104 || rc == 0x105 || rc == 0x106 || rc == 0x107 || rc == 0x108 || rc == 0x109 || rc == 0x10A || rc == 0x10B || rc == 0x10C || rc == 0x10D || rc == 0x10E || rc == 0x10F || rc == 0x110 || rc == 0x111 || rc == 0x201 || rc == 0x202 || rc == 0x203 || rc == 0x204 || rc == 0x205 || rc == 0x206 || rc == 0x207 || rc == 0x208 || rc == 0x209 || rc == 0x20A || rc == 0x20B || rc == 0x20C || rc == 0x20D || rc == 0x212 || rc == 0x213 || rc == 0x216 || rc == 0x23D || rc == 0x23E || rc == 0x300 || rc == 0x301 || rc == 0x302 || rc == 0x401 || rc == 0x402 || rc == 0x403 || rc == 0x404 || rc == 0x405 || rc == 0x406 || rc == 0x407 || rc == 0x408 || rc == 0x409 || rc == 0x40A || rc == 0x40B || rc == 0x40C || rc == 0x40D || rc == 0x40E
}

/// A human-readable description of a status code, for the codes that have one: host
/// errors, and errors of the ATT, HCI, L2CAP and security-manager bands.
pub fn return_code_to_string(rc: u32) -> (r: Option<&'static str>)
    ensures
        r is Some <==> is_described(rc),
{
    match rc {
        0x2 => Some("Operation already in progress or completed."),
        0x3 => Some("One or more arguments are invalid."),
        0x4 => Some("The provided buffer is too small."),
        0x5 => Some("No entry matching the specified criteria."),
        0x6 => Some("Operation failed due to resource exhaustion."),
        0x7 => Some("No open connection with the specified handle."),
        0x8 => Some("Operation disabled at compile time."),
        0x9 => Some("Application callback behaved unexpectedly."),
        0xA => Some("Command from peer is invalid."),
        0xB => Some("Mynewt OS error."),
        0xC => Some("Event from controller is invalid."),
        0xD => Some("Operation timed out."),
        0xE => Some("Operation completed successfully."),
        0xF => Some("Operation cannot be performed until procedure completes."),
        0x10 => Some("Peer rejected a connection parameter update request."),
        0x11 => Some("Unexpected failure; catch all."),
        0x12 => Some("Operation requires different role (e.g., central vs. peripheral)."),
        0x13 => Some("HCI request timed out; controller unresponsive."),
        0x14 => Some("Controller failed to send event due to memory exhaustion (combined host-controller only)."),
        0x15 => Some("Operation requires an identity address but none configured."),
        0x16 => Some("Attempt to use the host before it is synced with controller."),
        0x17 => Some("Insufficient authentication."),
        0x18 => Some("Insufficient authorization."),
        0x19 => Some("Insufficient encryption level."),
        0x1A => Some("Insufficient key size"),
        0x1B => Some("Storage at capacity."),
        0x1C => Some("Storage IO error."),
        0x101 => Some("The attribute handle given was not valid on this server."),
        0x102 => Some("The attribute cannot be read."),
        0x103 => Some("The attribute cannot be written."),
        0x104 => Some("The attribute PDU was invalid."),
        0x105 => Some("The attribute requires authentication before it can be read or written."),
        0x106 => Some("Attribute server does not support the request received from the client."),
        0x107 => Some("Offset specified was past the end of the attribute."),
        0x108 => Some("The attribute requires authorization before it can be read or written."),
        0x109 => Some("Too many prepare writes have been queued."),
        0x10A => Some("No attribute found within the given attribute handle range."),
        0x10B => Some("The attribute cannot be read or written using the Read Blob Request."),
        0x10C => Some("The Encryption Key Size used for encrypting this link is insufficient."),
        0x10D => Some("The attribute value length is invalid for the operation."),
        0x10E => Some("The attribute request has encountered an error that was unlikely, could not be completed as requested."),
        0x10F => Some("The attribute requires encryption before it can be read or written."),
        0x110 => Some("The attribute type is not a supported grouping attribute as defined by a higher layer specification."),
        0x111 => Some("Insufficient Resources to complete the request."),
        0x201 => Some("Unknown HCI Command"),
        0x202 => Some("Unknown Connection Identifier"),
        0x203 => Some("Hardware Failure"),
        0x204 => Some("Page Timeout"),
        0x205 => Some("Authentication Failure"),
        0x206 => Some("PIN or Key Missing"),
        0x207 => Some("Memory Capacity Exceeded"),
        0x208 => Some("Connection Timeout"),
        0x209 => Some("Connection Limit Exceeded"),
        0x20A => Some("Synchronous Connection Limit To A Device Exceeded"),
        0x20B => Some("ACL Connection Already Exists"),
        0x20C => Some("Command Disallowed"),
        0x20D => Some("Connection Rejected due to Limited Resources"),
        0x212 => Some("Invalid HCI Command Parameters"),
        0x213 => Some("Remote User Terminated Connection"),
        0x216 => Some("Connection Terminated By Local Host"),
        0x23D => Some("Connection Terminated; MIC Failure"),
        0x23E => Some("Connection Failed to be Established."),
        0x300 => Some("Invalid or unsupported incoming L2CAP sig command."),
        0x301 => Some("Incoming packet too large."),
        0x302 => Some("No channel with specified ID."),
        0x401 => Some("The user input of passkey failed, for example, the user cancelled the operation."),
        0x402 => Some("The OOB data is not available."),
        0x403 => Some("The pairing procedure cannot be performed as authentication requirements cannot be met due to IO capabilities of one or both devices."),
        0x404 => Some("The confirm value does not match the calculated compare value."),
        0x405 => Some("Pairing is not supported by the device."),
        0x406 => Some("The resultant encryption key size is insufficient for the security requirements of this device."),
        0x407 => Some("The SMP command received is not supported on this device."),
        0x408 => Some("Pairing failed due to an unspecified reason."),
        0x409 => Some("Pairing or authentication procedure is disallowed because too little time has elapsed since last pairing request or security request."),
        0x40A => Some("The Invalid Parameters error code indicates that the command length is invalid or that a parameter is outside of the specified range."),
        0x40B => Some("Indicates to the remote device that the DHKey Check value received doesn't match the one calculated by the local device."),
        0x40C => Some("Indicates that the confirm values in the numeric comparison protocol do not match."),
        0x40D => Some("Indicates that the pairing over the LE transport failed due to a Pairing Request sent over the BR/EDR transport in process."),
        0x40E => Some("Indicates that the BR/EDR Link Key generated on the BR/EDR transport cannot be used to derive and distribute keys for the LE transport."),
        _ => None,
    }
}

} // verus!

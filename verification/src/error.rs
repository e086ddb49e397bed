//! A platform error value: either an `HRESULT` or a last-error code, together
//! with the name of the call that failed.

use vstd::prelude::*;

verus! {

/// An error reported by a platform call.
///
/// The numeric code is kept as the platform produced it; `hresult` reads it as
/// a signed `HRESULT`, `u32` as the raw value.
#[derive(Clone, Copy, Debug)]
pub struct Error {
    pub method: &'static str,
    pub error_source: &'static str,
    pub error: u32,
    pub note: &'static str,
}

impl Error {
    /// The error code, as a `u32`.
    pub fn u32(&self) -> (r: u32)
        ensures
            r == self.error,
    {
        self.error
    }

    /// The error code, read as a signed `HRESULT`.
    pub fn hresult(&self) -> (r: i32)
        ensures
            r == self.error as i32,
    {
        #[verifier::truncate]
        let hr: i32 = self.error as i32;
        hr
    }

    /// The name of the call that failed.
    pub fn method(&self) -> (r: &'static str)
        ensures
            r == self.method,
    {
        self.method
    }

    pub fn new(method: &'static str, error_source: &'static str, error: u32, note: &'static str) -> (r: Error)
        ensures
            r.method == method,
            r.error_source == error_source,
            r.error == error,
            r.note == note,
    {
        Error { method, error_source, error, note }
    }

    pub fn new_gle(method: &'static str, error: u32, note: &'static str) -> (r: Error)
        ensures
            r.method == method,
            r.error == error,
            r.note == note,
    {
        Error::new(method, "GetLastError()", error, note)
    }

    pub fn new_hr(method: &'static str, hr: i32, note: &'static str) -> (r: Error)
        ensures
            r.method == method,
            r.error == hr as u32,
            r.note == note,
    {
        #[verifier::truncate]
        let error: u32 = hr as u32;
        Error::new(method, "HRESULT", error, note)
    }

    /// `Ok` exactly when `hr` denotes success, that is when `hr >= 0`.
    pub fn check_hr(method: &'static str, hr: i32, note: &'static str) -> (r: Result<(), Error>)
        ensures
            r is Ok <==> hr >= 0,
            r matches Err(e) ==> e.method == method && e.error == hr as u32,
    {
        if hr >= 0 {
            Ok(())
        } else {
            Err(Error::new_hr(method, hr, note))
        }
    }
}

/// The ASCII code of the uppercase hexadecimal digit for `d`, `d < 16`.
pub open spec fn spec_hex_digit(d: u8) -> u8 {
    if d < 10 {
        (48 + d) as u8
    } else {
        (55 + d) as u8
    }
}

/// The eight uppercase hexadecimal digits of `x`, most significant first, as
/// ASCII bytes — how the error code reads in a diagnostic message.
pub fn hex_u32(x: u32) -> (r: Vec<u8>)
    ensures
        r@.len() == 8,
        forall|i: int| 0 <= i < 8 ==> #[trigger] r@[i] == spec_hex_digit(
            ((x >> (28 - 4 * i)) & 0xF) as u8,
        ),
{
    let mut out: Vec<u8> = Vec::new();
    let mut i: u32 = 0;
    while i < 8
        invariant
            i <= 8,
            out@.len() == i,
            forall|t: int| 0 <= t < i ==> #[trigger] out@[t] == spec_hex_digit(
                ((x >> (28 - 4 * t)) & 0xF) as u8,
            ),
        decreases 8 - i,
    {
        let shift: u32 = 28 - 4 * i;
        let nib: u32 = (x >> shift) & 0xF;
        proof {
            assert((x >> shift) & 0xF < 16) by (bit_vector);
        }
        #[verifier::truncate]
        let d: u8 = nib as u8;
        let byte: u8 = if d < 10 {
            48 + d
        } else {
            55 + d
        };
        out.push(byte);
        i = i + 1;
    }
    out
}

impl Error {
    /// The error code as its diagnostic message spells it: eight uppercase
    /// hexadecimal digits.
    pub fn code_hex(&self) -> (r: Vec<u8>)
        ensures
            r@.len() == 8,
            forall|i: int| 0 <= i < 8 ==> #[trigger] r@[i] == spec_hex_digit(
                ((self.error >> (28 - 4 * i)) & 0xF) as u8,
            ),
    {
        hex_u32(self.error)
    }
}

/// `TestCooperativeLevel` answer: the device works.
pub const D3D_OK: u32 = 0;

/// Device lost and not yet restorable.
pub const D3DERR_DEVICELOST: u32 = 0x8876_0868;

/// Device lost and restorable: release and recreate it.
pub const D3DERR_DEVICENOTRESET: u32 = 0x8876_0869;

/// Unrecoverable internal driver error.
pub const D3DERR_DRIVERINTERNALERROR: u32 = 0x8876_0827;

/// The requested device kind is not available.
pub const D3DERR_NOTAVAILABLE: u32 = 0x8876_086A;

/// The device has no video memory left.
pub const D3DERR_OUTOFVIDEOMEMORY: u32 = 0x8876_017C;

/// A call was made with invalid arguments.
pub const D3DERR_INVALIDCALL: u32 = 0x8876_086C;

/// A queried datum was not found.
pub const D3DERR_NOTFOUND: u32 = 0x8876_0866;

/// The severity field of a decomposed `HRESULT`.
#[derive(Clone, Copy, Debug, PartialEq, Eq, Structural)]
pub enum Severity {
    Success,
    Informational,
    Warning,
    Error,
}

/// An `HRESULT` split into its defined bit fields.
pub struct Decomposed {
    pub sev: Severity,
    pub customer: bool,
    pub reserved: bool,
    pub facility: u16,
    pub code: u16,
}

/// The severity encoded in bits 30 and 31 of `hr`.
pub open spec fn spec_severity(hr: i32) -> Severity {
    let top: u32 = ((hr as u32) >> 30) as u32;
    if top == 0 {
        Severity::Success
    } else if top == 1 {
        Severity::Informational
    } else if top == 2 {
        Severity::Warning
    } else {
        Severity::Error
    }
}

impl Decomposed {
    /// Split `hr` into severity, customer bit, reserved bit, facility and code.
    pub fn from_hresult(hr: i32) -> (r: Decomposed)
        ensures
            r.sev == spec_severity(hr),
            r.customer == ((hr as u32) & 0x2000_0000u32 != 0),
            r.reserved == ((hr as u32) & 0x1000_0000u32 != 0),
            r.facility == (((hr as u32) >> 16) & 0xFFFu32) as u16,
            r.code == hr as u16,
    {
        #[verifier::truncate]
        let bits: u32 = hr as u32;
        let top: u32 = bits >> 30;
        assert(top <= 3) by (bit_vector)
            requires
                top == bits >> 30u32,
        ;
        let sev = if top == 0 {
            Severity::Success
        } else if top == 1 {
            Severity::Informational
        } else if top == 2 {
            Severity::Warning
        } else {
            Severity::Error
        };
        let fac_bits: u32 = (bits >> 16) & 0xFFF;
        assert(fac_bits <= 0xFFF) by (bit_vector)
            requires
                fac_bits == (bits >> 16u32) & 0xFFFu32,
        ;
        #[verifier::truncate]
        let facility: u16 = fac_bits as u16;
        #[verifier::truncate]
        let code: u16 = hr as u16;
        Decomposed {
            sev,
            customer: bits & 0x2000_0000 != 0,
            reserved: bits & 0x1000_0000 != 0,
            facility,
            code,
        }
    }
}

/// Build an `HRESULT` from a severity bit, a facility and a code.
pub fn make_hresult(sev: u8, fac: u16, code: u16) -> (r: i32)
    requires
        sev <= 1,
    ensures
        r == (((sev as u32) << 31) | ((fac as u32) << 16) | (code as u32)) as i32,
{
    let bits: u32 = ((sev as u32) << 31) | ((fac as u32) << 16) | (code as u32);
    #[verifier::truncate]
    let r: i32 = bits as i32;
    r
}

} // verus!

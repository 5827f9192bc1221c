//! Validation of trusted-setup parameter files: the exact byte length a file
//! must have for a given degree and serialization format, and the typed
//! errors raised when a file is missing, mis-sized, or undecodable.

use vstd::prelude::*;

verus! {

use vstd::arithmetic::power2::pow2;
use vstd::arithmetic::power2::lemma_pow2_pos;
use vstd::arithmetic::power2::lemma_pow2_strictly_increases;
use vstd::arithmetic::power2::lemma_pow2_unfold;
use vstd::arithmetic::power2::lemma2_to64;
use vstd::arithmetic::power2::lemma2_to64_rest;
use crate::paths::append_decimal;
use crate::paths::spec_decimal;

/// Byte-layout variant used to serialize the group elements of a parameter
/// file: `Processed` stores each base-group element compressed in 32 bytes,
/// the two raw variants store it uncompressed in 64 bytes.
#[derive(Clone, Copy, Debug, PartialEq, Eq, Structural)]
pub enum SerdeFormat {
    Processed,
    RawBytes,
    RawBytesUnchecked,
}

/// The format assumed when a caller does not request one explicitly.
pub const DEFAULT_SERDE_FORMAT: SerdeFormat = SerdeFormat::RawBytesUnchecked;

/// A failure while locating, validating, or decoding a parameter file.
#[derive(Clone, Debug)]
pub enum ParamError {
    /// The resolved path does not exist; setup parameters are provisioned
    /// out-of-band and are never created by this library.
    NotFound,
    /// The file's byte length differs from the exact length demanded by the
    /// requested degree and format.
    FormatMismatch { expected: u64, actual: u64, degree: u32 },
    /// The bytes had the expected length but the engine's deserializer
    /// rejected their content.
    DecodeError(String),
}

/// Size in bytes of one serialized base-group element under the given format.
pub open spec fn spec_elem_len(fmt: SerdeFormat) -> nat {
    match fmt {
        SerdeFormat::Processed => 32,
        SerdeFormat::RawBytes => 64,
        SerdeFormat::RawBytesUnchecked => 64,
    }
}

/// Exact byte length of a parameter file for `degree` and `fmt`: a 4-byte
/// length prefix, then 2 * 2^degree base-group elements (the element table
/// and its Lagrange counterpart), then 2 paired-group elements of twice the
/// base element size.
pub open spec fn spec_expected_param_len(degree: nat, fmt: SerdeFormat) -> nat {
    4 + 2 * pow2(degree) * spec_elem_len(fmt) + 2 * (2 * spec_elem_len(fmt))
}

/// A file length is accepted exactly when it equals the expected length;
/// there is no tolerance and no partial acceptance.
pub open spec fn spec_len_valid(degree: nat, fmt: SerdeFormat, actual: nat) -> bool {
    actual == spec_expected_param_len(degree, fmt)
}

/// Size in bytes of one serialized base-group element under the given format.
pub fn elem_len(fmt: SerdeFormat) -> (n: u64)
    ensures
        n == spec_elem_len(fmt),
{
    match fmt {
        SerdeFormat::Processed => 32,
        SerdeFormat::RawBytes => 64,
        SerdeFormat::RawBytesUnchecked => 64,
    }
}

/// 2^e for small exponents, by repeated doubling.
fn pow2_u64(e: u32) -> (r: u64)
    requires
        e <= 56,
    ensures
        r == pow2(e as nat),
{
    let mut r: u64 = 1;
    let mut i: u32 = 0;
    proof {
        lemma2_to64();
        lemma2_to64_rest();
    }
    while i < e
        invariant
            i <= e,
            e <= 56,
            r == pow2(i as nat),
            pow2(56) == 0x100000000000000,
        decreases e - i,
    {
        proof {
            lemma_pow2_unfold((i + 1) as nat);
            if i + 1 < 56 {
                lemma_pow2_strictly_increases((i + 1) as nat, 56);
            }
        }
        r = r * 2;
        i = i + 1;
    }
    r
}

/// The exact byte length a parameter file must have for `degree` and `fmt`.
/// The bound on `degree` only keeps the length representable in a `u64`.
pub fn expected_param_len(degree: u32, fmt: SerdeFormat) -> (n: u64)
    requires
        degree <= 56,
    ensures
        n == spec_expected_param_len(degree as nat, fmt),
{
    let table: u64 = pow2_u64(degree);
    let e: u64 = elem_len(fmt);
    proof {
        lemma2_to64_rest();
        if (degree as nat) < 56 {
            lemma_pow2_strictly_increases(degree as nat, 56);
        }
        assert(2 * table * e <= 0x8000000000000000) by (nonlinear_arith)
            requires
                table <= 0x100000000000000,
                e <= 64,
        ;
    }
    4 + 2 * table * e + 2 * (2 * e)
}

/// Compare a file's actual byte length against the exact expected length,
/// rejecting any discrepancy before the engine's deserializer runs on it.
pub fn validate_param_len(degree: u32, fmt: SerdeFormat, actual_len: u64) -> (r: Result<
    (),
    ParamError,
>)
    requires
        degree <= 56,
    ensures
        r is Ok <==> spec_len_valid(degree as nat, fmt, actual_len as nat),
        r is Err ==> (r->Err_0 matches ParamError::FormatMismatch { expected, actual, degree: d }
            && expected == spec_expected_param_len(degree as nat, fmt) && actual == actual_len
            && d == degree),
{
    let expected = expected_param_len(degree, fmt);
    if actual_len == expected {
        Ok(())
    } else {
        Err(ParamError::FormatMismatch { expected, actual: actual_len, degree })
    }
}

/// Decision for the existence check on a resolved parameter path: a missing
/// file is reported as `NotFound`, never created or substituted.
pub fn require_params_present(path_exists: bool) -> (r: Result<(), ParamError>)
    ensures
        r is Ok <==> path_exists,
        r is Err ==> r->Err_0 matches ParamError::NotFound,
{
    if path_exists {
        Ok(())
    } else {
        Err(ParamError::NotFound)
    }
}

/// The format a load request uses: the requested one, or the default when
/// the caller did not request any.
pub fn resolve_serde_format(requested: Option<SerdeFormat>) -> (r: SerdeFormat)
    ensures
        match requested {
            Some(f) => r == f,
            None => r == DEFAULT_SERDE_FORMAT,
        },
{
    match requested {
        Some(f) => f,
        None => DEFAULT_SERDE_FORMAT,
    }
}

/// Handle for a successfully decoded commitment-parameters object. The engine
/// owns the opaque cryptographic data; this records the degree and format the
/// object was decoded with, which identify it.
#[derive(Clone, Copy, Debug, PartialEq, Eq, Structural)]
pub struct SetupParameters {
    pub degree: u32,
    pub format: SerdeFormat,
}

/// Surface the outcome of the engine's deserialization routine as a typed
/// result: success yields the parameters handle, an engine failure is carried
/// as `DecodeError` rather than propagated as a panic.
pub fn finish_decode(degree: u32, format: SerdeFormat, outcome: Result<(), String>) -> (r: Result<
    SetupParameters,
    ParamError,
>)
    ensures
        outcome is Ok ==> r is Ok && r->Ok_0 == (SetupParameters { degree, format }),
        outcome is Err ==> r is Err && (r->Err_0 matches ParamError::DecodeError(m) && m
            == outcome->Err_0),
{
    match outcome {
        Ok(_) => Ok(SetupParameters { degree, format }),
        Err(m) => Err(ParamError::DecodeError(m)),
    }
}

impl ParamError {
    /// A reader-facing description of the failure; a missing file comes with
    /// the guidance that parameters are provisioned out-of-band.
    pub fn describe(&self) -> (r: String)
        ensures
            self matches ParamError::NotFound ==> r@ ==
                "setup parameters not found: provision them out-of-band and retry"@,
            self matches ParamError::FormatMismatch { expected, actual, degree } ==> r@ ==
                "invalid params file length "@ + spec_decimal(actual as nat) + " (expected "@
                + spec_decimal(expected as nat) + ") for degree "@ + spec_decimal(degree as nat),
            self matches ParamError::DecodeError(m) ==> r@ == "params deserialization failed: "@
                + m@,
    {
        match self {
            ParamError::NotFound => "setup parameters not found: provision them out-of-band and retry".to_owned(),
            ParamError::FormatMismatch { expected, actual, degree } => {
                let mut s = "invalid params file length ".to_owned();
                append_decimal(&mut s, *actual);
                s.append(" (expected ");
                append_decimal(&mut s, *expected);
                s.append(") for degree ");
                append_decimal(&mut s, *degree as u64);
                s
            },
            ParamError::DecodeError(m) => {
                let mut s = "params deserialization failed: ".to_owned();
                s.append(m.as_str());
                s
            },
        }
    }
}

/// Law: the expected length is deterministic — it is a function of degree
/// and format alone, so two computations over the same inputs agree.
pub proof fn lemma_expected_len_deterministic(degree: nat, fmt: SerdeFormat, n1: nat, n2: nat)
    requires
        n1 == spec_expected_param_len(degree, fmt),
        n2 == spec_expected_param_len(degree, fmt),
    ensures
        n1 == n2,
{
}

/// Law: the expected length is strict — a length one byte short or one byte
/// long of the expected length is rejected, for every degree and format.
pub proof fn lemma_off_by_one_rejected(degree: nat, fmt: SerdeFormat)
    ensures
        !spec_len_valid(degree, fmt, (spec_expected_param_len(degree, fmt) - 1) as nat),
        !spec_len_valid(degree, fmt, spec_expected_param_len(degree, fmt) + 1),
{
    lemma_pow2_pos(degree);
}

} // verus!

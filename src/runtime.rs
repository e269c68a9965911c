//! Runtime bytes objects built from host strings.
use vstd::prelude::*;

use cpython::{PyBytes, Python};

use crate::host::{unit_bytes, wide_native_bytes};

verus! {

/// The token that proves the runtime's global execution lock is held.
#[verifier::external_type_specification]
#[verifier::external_body]
pub struct ExPython<'p>(Python<'p>);

/// A runtime bytes object.
#[verifier::external_type_specification]
#[verifier::external_body]
pub struct ExPyBytes(PyBytes);

/// The bytes that a runtime bytes object holds.
pub uninterp spec fn bytes_content(o: PyBytes) -> Seq<u8>;

/// Relies on cpython's `PyBytes::new`: a new bytes object initialised by
/// copying the given bytes.
#[verifier::external_body]
fn new_runtime_bytes(py: Python, b: &[u8]) -> (r: PyBytes)
    ensures
        bytes_content(r) == b@,
{
    PyBytes::new(py, b)
}

/// Relies on cpython's `PyBytes::data`: the bytes that the object holds.
#[verifier::external_body]
fn runtime_bytes_data(py: Python, o: &PyBytes) -> (r: Vec<u8>)
    ensures
        r@ == bytes_content(*o),
{
    o.data(py).to_vec()
}

/// Converts a POSIX-style host string into a new runtime bytes object that
/// holds exactly the host bytes.
pub fn osstring_to_bytes(py: Python, s: &[u8]) -> (r: PyBytes)
    ensures
        bytes_content(r) == s@,
{
    new_runtime_bytes(py, s)
}

/// Converts a Windows-style host string into a new runtime bytes object that
/// holds the code units' native byte layout, two bytes per unit.
pub fn wide_osstring_to_bytes(py: Python, s: &[u16]) -> (r: PyBytes)
    requires
        2 * s@.len() <= usize::MAX,
    ensures
        bytes_content(r) == unit_bytes(s@),
        bytes_content(r).len() == 2 * s@.len(),
{
    let b = wide_native_bytes(s);
    new_runtime_bytes(py, b.as_slice())
}

/// The bytes held by a runtime bytes object, as a vector.
pub fn bytes_of(py: Python, o: &PyBytes) -> (r: Vec<u8>)
    ensures
        r@ == bytes_content(*o),
{
    runtime_bytes_data(py, o)
}

} // verus!

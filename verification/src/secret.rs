//! A wrapper for values that must not leak: passwords and authentication
//! payloads.  The wrapper has no `Debug` form - debug output goes through
//! [`Secret::redacted`] - and comparisons run in constant time.

use subtle::ConstantTimeEq;
use vstd::prelude::*;

verus! {

/// A value that is redacted in debug output and compared in constant time.
#[derive(Clone, Hash)]
pub struct Secret<T>(T);

impl<T> Secret<T> {
    /// The wrapped value, for specifications.
    pub closed spec fn value(&self) -> T {
        self.0
    }

    pub fn new(inner: T) -> (r: Self)
        ensures
            r.value() == inner,
    {
        Secret(inner)
    }

    pub fn expose_secret(&self) -> (r: &T)
        ensures
            *r == self.value(),
    {
        &self.0
    }

    /// What debug output shows in place of the value.
    pub fn redacted(&self) -> (r: String)
        ensures
            r@ == "[[REDACTED]]"@,
    {
        "[[REDACTED]]".to_owned()
    }
}

/// Relies on subtle's `ConstantTimeEq` for `[u8]`: `ct_eq` yields 1 exactly
/// when the slices are equal, comparing every byte without data-dependent
/// branching, and `unwrap_u8` exposes that bit.
#[verifier::external_body]
fn ct_eq_bytes(a: &[u8], b: &[u8]) -> (r: bool)
    ensures
        r == (a@ == b@),
{
    a.ct_eq(b).unwrap_u8() == 1
}

impl Secret<String> {
    /// Compare with `other` in constant time.
    pub fn compare_ct(&self, other: &str) -> (r: bool)
        ensures
            r == (self.value()@ == other@),
    {
        proof {
            vstd::utf8::encode_utf8_decode_utf8(self.value()@);
            vstd::utf8::encode_utf8_decode_utf8(other@);
        }
        ct_eq_bytes(self.0.as_str().as_bytes(), other.as_bytes())
    }
}

impl Secret<Vec<u8>> {
    /// Compare with `other` in constant time.
    pub fn compare_ct_bytes(&self, other: &[u8]) -> (r: bool)
        ensures
            r == (self.value()@ == other@),
    {
        ct_eq_bytes(self.0.as_slice(), other)
    }
}

impl PartialEq for Secret<Vec<u8>> {
    fn eq(&self, other: &Self) -> (r: bool) {
        ct_eq_bytes(self.0.as_slice(), other.0.as_slice())
    }
}

impl vstd::std_specs::cmp::PartialEqSpecImpl for Secret<Vec<u8>> {
    open spec fn obeys_eq_spec() -> bool {
        true
    }

    open spec fn eq_spec(&self, other: &Self) -> bool {
        self.value()@ == other.value()@
    }
}

impl PartialEq for Secret<String> {
    fn eq(&self, other: &Self) -> (r: bool) {
        proof {
            vstd::utf8::encode_utf8_decode_utf8(self.value()@);
            vstd::utf8::encode_utf8_decode_utf8(other.value()@);
        }
        ct_eq_bytes(self.0.as_str().as_bytes(), other.0.as_str().as_bytes())
    }
}

impl vstd::std_specs::cmp::PartialEqSpecImpl for Secret<String> {
    open spec fn obeys_eq_spec() -> bool {
        true
    }

    open spec fn eq_spec(&self, other: &Self) -> bool {
        self.value()@ == other.value()@
    }
}

} // verus!

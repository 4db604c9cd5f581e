//! A wrapper that keeps secrets (tokens, passwords) out of `Debug` output.

use vstd::prelude::*;

verus! {

/// The text printed in place of a secret.
pub const REDACTED: &'static str = "<redacted>";

#[verifier::external_type_specification]
#[verifier::external_body]
pub struct ExFormatter<'a>(core::fmt::Formatter<'a>);

#[verifier::external_type_specification]
#[verifier::external_body]
pub struct ExFmtError(core::fmt::Error);

#[verifier::external_type_specification]
#[verifier::external_body]
pub struct ExDebugStruct<'a, 'b: 'a>(core::fmt::DebugStruct<'a, 'b>);

#[verifier::external_type_specification]
#[verifier::external_body]
pub struct ExDebugTuple<'a, 'b: 'a>(core::fmt::DebugTuple<'a, 'b>);

/// Calls `core::fmt::Formatter::debug_struct`, which starts the `Debug`
/// output of a struct with this name. Trusted: nothing is claimed of it.
#[verifier::external_body]
pub(crate) fn debug_struct<'a, 'b>(f: &'a mut core::fmt::Formatter<'b>, name: &str) -> core::fmt::DebugStruct<'a, 'b> {
    f.debug_struct(name)
}

/// Calls `core::fmt::DebugStruct::field`, which adds a named field to the
/// output. Trusted: nothing is claimed of it.
#[verifier::external_body]
pub(crate) fn struct_field<'a, 'b, V: core::fmt::Debug>(
    builder: &mut core::fmt::DebugStruct<'a, 'b>,
    name: &str,
    value: &V,
) {
    builder.field(name, value);
}

/// Calls `core::fmt::DebugStruct::finish`, which closes the output. Trusted:
/// nothing is claimed of the outcome, which depends on the sink.
#[verifier::external_body]
pub(crate) fn struct_finish<'a, 'b>(builder: &mut core::fmt::DebugStruct<'a, 'b>) -> core::fmt::Result {
    builder.finish()
}

/// Calls `core::fmt::Formatter::debug_tuple`, which starts the `Debug`
/// output of a tuple struct with this name. Trusted: nothing is claimed of it.
#[verifier::external_body]
pub(crate) fn debug_tuple<'a, 'b>(f: &'a mut core::fmt::Formatter<'b>, name: &str) -> core::fmt::DebugTuple<'a, 'b> {
    f.debug_tuple(name)
}

/// Calls `core::fmt::DebugTuple::field`, which adds a field to the output.
/// Trusted: nothing is claimed of it.
#[verifier::external_body]
pub(crate) fn tuple_field<'a, 'b, V: core::fmt::Debug>(builder: &mut core::fmt::DebugTuple<'a, 'b>, value: &V) {
    builder.field(value);
}

/// Calls `core::fmt::DebugTuple::finish`, which closes the output. Trusted:
/// nothing is claimed of the outcome, which depends on the sink.
#[verifier::external_body]
pub(crate) fn tuple_finish<'a, 'b>(builder: &mut core::fmt::DebugTuple<'a, 'b>) -> core::fmt::Result {
    builder.finish()
}

/// A secret value whose `Debug` output is redacted.
///
/// Read the value with [`Secret::expose`].
#[derive(Clone, PartialEq, Eq, Default)]
pub struct Secret<T>(T);

impl<T> Secret<T> {
    /// Wraps a secret.
    pub fn new(value: T) -> (r: Secret<T>)
        ensures
            r.inner() == value,
    {
        Secret(value)
    }

    /// The wrapped value.
    pub closed spec fn inner(&self) -> T {
        self.0
    }

    /// Borrows the secret value.
    pub fn expose(&self) -> (r: &T)
        ensures
            *r == self.inner(),
    {
        &self.0
    }

    /// Unwraps the secret value.
    pub fn into_inner(self) -> (r: T)
        ensures
            r == self.inner(),
    {
        self.0
    }
}

/// `core::fmt::Formatter::write_str` writes the text to the formatter's
/// sink. Trusted: nothing is claimed of the outcome, which depends on the
/// sink.
pub assume_specification<'a>[core::fmt::Formatter::<'a>::write_str](
    f: &mut core::fmt::Formatter<'a>,
    data: &str,
) -> core::fmt::Result;

impl<T> core::fmt::Debug for Secret<T> {
    /// Writes the redaction marker, never the value.
    fn fmt(&self, f: &mut core::fmt::Formatter<'_>) -> core::fmt::Result {
        f.write_str(REDACTED)
    }
}

} // verus!

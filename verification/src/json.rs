use vstd::prelude::*;

use crate::adapter::WriteAdapter;
use crate::error::StreamError;
use crate::error::UnwrapError;
use crate::stream::ByteWriter;

verus! {

/// serde_json's JSON encoder over a writer, declared so that it can stand in
/// fields and signatures; its value is opaque here.
#[verifier::external_type_specification]
#[verifier::external_body]
#[verifier::reject_recursive_types(W)]
#[verifier::reject_recursive_types(F)]
pub struct ExSerializer<W, F>(serde_json::Serializer<W, F>);

/// serde_json's compact output format, the one its plain encoder uses.
#[verifier::external_type_specification]
#[verifier::external_body]
pub struct ExCompactFormatter(serde_json::ser::CompactFormatter);

/// serde_json's error type, as the encoding call returns it.
#[verifier::external_type_specification]
#[verifier::external_body]
pub struct ExJsonError(serde_json::Error);

/// The bytes the writer inside a JSON serializer holds: everything the
/// encoder has emitted so far, after whatever the writer held when it was
/// wrapped.
pub uninterp spec fn json_sink_bytes(s: serde_json::Serializer<Vec<u8>>) -> Seq<u8>;

/// The JSON encoding of an object holding the single entry `key: value`; it
/// depends on the two strings alone.
pub uninterp spec fn json_entry_bytes(key: Seq<char>, value: Seq<char>) -> Seq<u8>;

/// Relies on serde_json::Serializer::new: it stores the given writer, with
/// nothing emitted yet.
#[verifier::external_body]
fn json_new(writer: Vec<u8>) -> (s: serde_json::Serializer<Vec<u8>>)
    ensures
        json_sink_bytes(s) == writer@,
{
    serde_json::Serializer::new(writer)
}

/// Relies on serde_json::Serializer::into_inner: it returns the stored
/// writer unchanged.
#[verifier::external_body]
fn json_into_inner(s: serde_json::Serializer<Vec<u8>>) -> (writer: Vec<u8>)
    ensures
        writer@ == json_sink_bytes(s),
{
    s.into_inner()
}

/// Relies on serde::Serializer::collect_map for serde_json's serializer over
/// an in-memory writer: it appends the JSON object holding the one given
/// entry, whose bytes depend on the key and value alone. For these types the
/// call cannot fail: every write lands in the in-memory vector, which accepts
/// all of them, and a string key is a legal JSON object key.
#[verifier::external_body]
fn json_collect_entry(s: &mut serde_json::Serializer<Vec<u8>>, key: &str, value: &str) -> (r:
    Result<(), serde_json::Error>)
    ensures
        r is Ok,
        json_sink_bytes(*final(s)) == json_sink_bytes(*old(s)) + json_entry_bytes(key@, value@),
{
    serde::Serializer::collect_map(&mut *s, core::iter::once((key, value)))
}

/// A structured-serializer adapter: wraps an in-memory byte sink in a JSON
/// encoder. The encoder keeps no buffered output of its own — whatever it has
/// emitted already stands in the sink — so teardown never fails and simply
/// returns the sink as it is.
pub struct JsonSerializer {
    ser: serde_json::Serializer<Vec<u8>>,
}

impl JsonSerializer {
    /// Encode one key/value record as a JSON object, written through to the
    /// underlying sink at once: exactly the record's encoding is appended,
    /// nothing else, and teardown stays infallible.
    pub fn write_entry(&mut self, key: &str, value: &str)
        requires
            old(self).valid(),
        ensures
            final(self).valid(),
            final(self).can_unwrap(),
            final(self).unwrapped_view() == old(self).unwrapped_view() + json_entry_bytes(
                key@,
                value@,
            ),
    {
        match json_collect_entry(&mut self.ser, key, value) {
            Ok(()) => (),
            Err(_) => vstd::pervasive::unreached(),
        }
    }
}

impl WriteAdapter<Vec<u8>> for JsonSerializer {
    open spec fn valid(&self) -> bool {
        true
    }

    open spec fn can_unwrap(&self) -> bool {
        true
    }

    closed spec fn unwrapped_view(&self) -> Seq<u8> {
        json_sink_bytes(self.ser)
    }

    open spec fn unwrap_refusal(&self) -> StreamError {
        StreamError { code: 0 }
    }

    fn wrap(writer: Vec<u8>) -> (a: Self) {
        JsonSerializer { ser: json_new(writer) }
    }

    fn try_into_inner(self) -> (r: Result<Vec<u8>, UnwrapError<Self>>) {
        Ok(json_into_inner(self.ser))
    }
}

} // verus!

//! The two outside decoders that a body's bytes are handed to.

use vstd::prelude::*;
use vstd::utf8::{decode_utf8, valid_utf8};

verus! {

#[verifier::external_type_specification]
#[verifier::external_body]
pub struct ExPlistValue(plist::Value);

#[verifier::external_type_specification]
#[verifier::external_body]
pub struct ExPlistError(plist::Error);

/// The text that lossy UTF-8 decoding makes of some bytes.
pub uninterp spec fn lossy_utf8(b: Seq<u8>) -> Seq<char>;

/// The value that parsing some bytes as a property-list document gives, or
/// `None` where they are not a well-formed document.
pub uninterp spec fn parsed_plist(b: Seq<u8>) -> Option<plist::Value>;

/// How many entries a value holds where it is a dictionary; `None` for any
/// other kind of value.
pub uninterp spec fn dictionary_len(v: plist::Value) -> Option<nat>;

/// Relies on `String::from_utf8_lossy`: every invalid sequence becomes
/// U+FFFD, so the result depends on the bytes alone, and valid UTF-8 is
/// decoded as it stands.
#[verifier::external_body]
pub(crate) fn lossy_text(b: &[u8]) -> (r: String)
    ensures
        r@ == lossy_utf8(b@),
        valid_utf8(b@) ==> r@ == decode_utf8(b@),
{
    String::from_utf8_lossy(b).into_owned()
}

/// Relies on `plist::from_bytes`: it reads the document from an in-memory
/// cursor over the bytes, so whether it succeeds, and the value it gives,
/// depend on them alone.
#[verifier::external_body]
pub(crate) fn parse_plist(b: &[u8]) -> (r: Result<plist::Value, plist::Error>)
    ensures
        r is Ok <==> parsed_plist(b@) is Some,
        r is Ok ==> parsed_plist(b@) == Some(r->Ok_0),
{
    plist::from_bytes(b)
}

/// Relies on `plist::Dictionary::new`, which makes a dictionary with no
/// entries, wrapped as a `plist::Value::Dictionary`.
#[verifier::external_body]
pub(crate) fn empty_dictionary() -> (r: plist::Value)
    ensures
        dictionary_len(r) == Some(0nat),
{
    plist::Value::Dictionary(plist::Dictionary::new())
}

} // verus!

//! Object ids as the engine sees them: opaque hexadecimal strings.
//!
//! The store assigns ids; the engine only carries them around as rendered
//! hexadecimal text. A fresh id is drawn from the driver when an entity that
//! was never persisted has to be rendered with a placeholder id.

use vstd::prelude::*;

verus! {

/// Whether `c` is a lowercase hexadecimal digit.
pub open spec fn is_hex_digit(c: char) -> bool {
    ('0' <= c && c <= '9') || ('a' <= c && c <= 'f')
}

/// Whether `s` has the shape of a rendered object id: 24 lowercase
/// hexadecimal characters.
pub open spec fn is_object_id_hex(s: Seq<char>) -> bool {
    s.len() == 24 && (forall|i: int| 0 <= i < s.len() ==> is_hex_digit(#[trigger] s[i]))
}

/// Relies on bson's `ObjectId::new` and `ObjectId::to_hex`: a freshly
/// generated id is rendered by `hex::encode` as the 24 lowercase hexadecimal
/// digits of its 12 bytes. The id itself depends on the clock and on chance,
/// so nothing beyond that shape is promised.
#[verifier::external_body]
pub fn fresh_object_id_hex() -> (id: String)
    ensures
        is_object_id_hex(id@),
{
    mongodb::bson::oid::ObjectId::new().to_hex()
}

} // verus!

//! The object record whose `vnode` field is decoded by the flexible rule, and
//! its strict counterpart.
use vstd::prelude::*;

use crate::numberish::{decode_scalar, DecodeError, DecodeFailure, Numberish, Scalar};

verus! {

/// uuid's `Uuid`, declared so that the records can carry their identifiers;
/// nothing here reads inside one.
#[verifier::external_type_specification]
#[verifier::external_body]
pub struct ExUuid(uuid::Uuid);

/// An object record whose `vnode` must already be an unsigned 64-bit integer.
pub struct ObjectData {
    pub owner: uuid::Uuid,
    pub bucket_id: uuid::Uuid,
    pub name: String,
    pub vnode: u64,
}

/// An object record whose `vnode` is decoded by the flexible rule.
pub struct ObjectData2 {
    pub owner: uuid::Uuid,
    pub bucket_id: uuid::Uuid,
    pub name: String,
    pub vnode: Numberish,
}

impl ObjectData2 {
    /// Builds the record from its decoded fields and the scalar found for
    /// `vnode`. The record is had whole or not at all: a `vnode` that does not
    /// decode fails the record with that field's error.
    pub fn decode(owner: uuid::Uuid, bucket_id: uuid::Uuid, name: String, vnode: Scalar) -> (r:
        Result<ObjectData2, DecodeError>)
        ensures
            decode_scalar(vnode) is Ok <==> r is Ok,
            r matches Ok(d) ==> d.owner == owner && d.bucket_id == bucket_id && d.name@ == name@
                && Ok::<u64, DecodeFailure>(d.vnode.0) == decode_scalar(vnode),
            r matches Err(e) ==> Err::<u64, DecodeFailure>(e@) == decode_scalar(vnode),
    {
        match Numberish::deserialize(vnode) {
            Ok(v) => Ok(ObjectData2 { owner, bucket_id, name, vnode: v }),
            Err(e) => Err(e),
        }
    }
}

} // verus!

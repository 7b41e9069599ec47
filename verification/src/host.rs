//! The names and type descriptors of the host methods through which each
//! field of the carrier is got and set. They are fixed by the host's class
//! and have to match it letter for letter.

use vstd::prelude::*;

use crate::carrier::Field;

verus! {

/// The name of the host method that returns `field`.
pub open spec fn getter_name_of(field: Field) -> Seq<char> {
    match field {
        Field::Name => "getName"@,
        Field::Instance => "getInstance"@,
        Field::Witness => "getWitness"@,
        Field::Gadgets => "getGadgets"@,
        Field::Commitments => "getCommitments"@,
        Field::Proof => "getProof"@,
    }
}

/// The name of the host method that stores `field`.
pub open spec fn setter_name_of(field: Field) -> Seq<char> {
    match field {
        Field::Name => "setName"@,
        Field::Instance => "setInstance"@,
        Field::Witness => "setWitness"@,
        Field::Gadgets => "setGadgets"@,
        Field::Commitments => "setCommitments"@,
        Field::Proof => "setProof"@,
    }
}

/// The type descriptor of the getter of `field`: no argument, and a string
/// or a byte array as the result.
pub open spec fn getter_signature_of(field: Field) -> Seq<char> {
    if field.is_text() {
        "()Ljava/lang/String;"@
    } else {
        "()[B"@
    }
}

/// The type descriptor of the setter of `field`: a string or a byte array as
/// the one argument, and no result.
pub open spec fn setter_signature_of(field: Field) -> Seq<char> {
    if field.is_text() {
        "(Ljava/lang/String;)V"@
    } else {
        "([B)V"@
    }
}

/// The name of the host method that returns `field`.
pub fn getter_name(field: Field) -> (r: &'static str)
    ensures
        r@ == getter_name_of(field),
{
    match field {
        Field::Name => "getName",
        Field::Instance => "getInstance",
        Field::Witness => "getWitness",
        Field::Gadgets => "getGadgets",
        Field::Commitments => "getCommitments",
        Field::Proof => "getProof",
    }
}

/// The name of the host method that stores `field`.
pub fn setter_name(field: Field) -> (r: &'static str)
    ensures
        r@ == setter_name_of(field),
{
    match field {
        Field::Name => "setName",
        Field::Instance => "setInstance",
        Field::Witness => "setWitness",
        Field::Gadgets => "setGadgets",
        Field::Commitments => "setCommitments",
        Field::Proof => "setProof",
    }
}

/// The type descriptor of the getter of `field`.
pub fn getter_signature(field: Field) -> (r: &'static str)
    ensures
        r@ == getter_signature_of(field),
{
    if field.holds_text() {
        "()Ljava/lang/String;"
    } else {
        "()[B"
    }
}

/// The type descriptor of the setter of `field`.
pub fn setter_signature(field: Field) -> (r: &'static str)
    ensures
        r@ == setter_signature_of(field),
{
    if field.holds_text() {
        "(Ljava/lang/String;)V"
    } else {
        "([B)V"
    }
}

} // verus!

//! What holds of the bridge as a whole, proved from the definitions that the
//! contracts of the other modules are stated over.

use vstd::prelude::*;

use crate::carrier::{CarrierView, Field};
use crate::error::{BridgeError, EngineFailure};
use crate::host::{getter_name_of, setter_name_of};
use crate::prove::{
    carrier_after_prove, prove_reads_of, prove_request_of, prove_result_of, prove_writes_of,
    ProveOutput, ProveRequestView,
};
use crate::verify::{verify_reads_of, verify_request_of, VerifyRequestView};

verus! {

/// Text fidelity. Text stored in a textual field is read back character for
/// character, and storing what a field already holds changes nothing: a
/// round trip through reading and writing returns the identical carrier.
pub proof fn text_round_trip(c: CarrierView, field: Field, value: Seq<char>)
    requires
        field.is_text(),
    ensures
        c.with_text(field, value).text(field) == Some(value),
        c.text(field) == Some(value) ==> c.with_text(field, value) == c,
{
}

/// Byte exactness. Bytes stored in the proof field are read back as the same
/// sequence, so with the same length and the same byte at every place, and
/// storing what the field already holds changes nothing.
pub proof fn bytes_round_trip(c: CarrierView, value: Seq<u8>)
    ensures
        c.with_bytes(Field::Proof, value).bytes(Field::Proof) == Some(value),
        c.with_bytes(Field::Proof, value).bytes(Field::Proof)->0.len() == value.len(),
        c.bytes(Field::Proof) == Some(value) ==> c.with_bytes(Field::Proof, value) == c,
{
}

/// A write touches one field. After text is stored in `field`, or bytes in
/// the proof field, every other field holds what it held before.
pub proof fn write_touches_one_field(
    c: CarrierView,
    field: Field,
    other: Field,
    text: Seq<char>,
    bytes: Seq<u8>,
)
    requires
        other != field,
    ensures
        c.with_text(field, text).text(other) == c.text(other),
        c.with_text(field, text).bytes(other) == c.bytes(other),
        c.with_bytes(field, bytes).text(other) == c.text(other),
        c.with_bytes(field, bytes).bytes(other) == c.bytes(other),
{
}

/// What proving writes. After the engine has succeeded the carrier holds the
/// engine's commitments and the engine's proof, byte for byte, and every
/// field that is not among the written ones is as it was: the name, the
/// instance, the witness and the gadgets are never altered.
pub proof fn prove_writes_its_outputs_only(c: CarrierView, output: ProveOutput, field: Field)
    ensures
        carrier_after_prove(c, Ok(output)).text(Field::Commitments) == Some(output.commitments@),
        carrier_after_prove(c, Ok(output)).bytes(Field::Proof) == Some(output.proof@),
        !prove_writes_of().contains(field) ==> carrier_after_prove(c, Ok(output)).text(field)
            == c.text(field) && carrier_after_prove(c, Ok(output)).bytes(field) == c.bytes(field),
{
    assert(prove_writes_of()[0] == Field::Commitments);
    assert(prove_writes_of()[1] == Field::Proof);
}

/// All or nothing. Where the engine fails, the carrier after the proving
/// call is the carrier before it, the commitments and the proof included,
/// and the call reports an engine error.
pub proof fn failed_prove_changes_nothing(c: CarrierView, failure: EngineFailure)
    ensures
        carrier_after_prove(c, Err(failure)) == c,
        prove_result_of(Err(failure)) == Err::<(), BridgeError>(BridgeError::Engine),
{
}

/// A proving call needs exactly the fields that it reads. The request is
/// made when all of them are present; otherwise the failure names the first
/// in reading order that is absent.
pub proof fn prove_request_follows_reads(c: CarrierView)
    ensures
        prove_request_of(c) is Ok <==> forall|i: int|
            0 <= i < prove_reads_of().len() ==> c.has(#[trigger] prove_reads_of()[i]),
        prove_request_of(c) is Err ==> exists|i: int|
            0 <= i < prove_reads_of().len() && prove_request_of(c) == Err::<
                ProveRequestView,
                BridgeError,
            >(BridgeError::Marshal(#[trigger] prove_reads_of()[i])) && !c.has(prove_reads_of()[i])
                && forall|j: int| 0 <= j < i ==> c.has(#[trigger] prove_reads_of()[j]),
{
    let reads = prove_reads_of();
    assert(reads.len() == 4);
    assert(reads[0] == Field::Name && reads[1] == Field::Instance);
    assert(reads[2] == Field::Witness && reads[3] == Field::Gadgets);
    if c.name is None {
        assert(!c.has(reads[0]));
    } else if c.instance is None {
        assert(!c.has(reads[1]));
    } else if c.witness is None {
        assert(!c.has(reads[2]));
    } else if c.gadgets is None {
        assert(!c.has(reads[3]));
    }
}

/// A verifying call needs exactly the fields that it reads. The request is
/// made when all of them are present; otherwise the failure names the first
/// in reading order that is absent.
pub proof fn verify_request_follows_reads(c: CarrierView)
    ensures
        verify_request_of(c) is Ok <==> forall|i: int|
            0 <= i < verify_reads_of().len() ==> c.has(#[trigger] verify_reads_of()[i]),
        verify_request_of(c) is Err ==> exists|i: int|
            0 <= i < verify_reads_of().len() && verify_request_of(c) == Err::<
                VerifyRequestView,
                BridgeError,
            >(BridgeError::Marshal(#[trigger] verify_reads_of()[i])) && !c.has(
                verify_reads_of()[i],
            ) && forall|j: int| 0 <= j < i ==> c.has(#[trigger] verify_reads_of()[j]),
{
    let reads = verify_reads_of();
    assert(reads.len() == 5);
    assert(reads[0] == Field::Name && reads[1] == Field::Instance);
    assert(reads[2] == Field::Commitments && reads[3] == Field::Gadgets);
    assert(reads[4] == Field::Proof);
    if c.name is None {
        assert(!c.has(reads[0]));
    } else if c.instance is None {
        assert(!c.has(reads[1]));
    } else if c.commitments is None {
        assert(!c.has(reads[2]));
    } else if c.gadgets is None {
        assert(!c.has(reads[3]));
    } else if c.proof is None {
        assert(!c.has(reads[4]));
    }
}

/// Proving feeds verifying. On a carrier from which a proving request can be
/// made, after the engine has succeeded a verifying request can be made too,
/// and it holds the name, the instance and the gadgets that were proved
/// about together with exactly the commitments and the proof that the engine
/// produced.
pub proof fn verify_request_after_prove(c: CarrierView, output: ProveOutput)
    requires
        prove_request_of(c) is Ok,
    ensures
        verify_request_of(carrier_after_prove(c, Ok(output))) == Ok::<
            VerifyRequestView,
            BridgeError,
        >(
            VerifyRequestView {
                name: prove_request_of(c)->Ok_0.name,
                instance: prove_request_of(c)->Ok_0.instance,
                proof: output.proof@,
                commitments: output.commitments@,
                gadgets: prove_request_of(c)->Ok_0.gadgets,
            },
        ),
{
}

/// Nothing is masked on the way to the engine. Two carriers that make the
/// same verifying request hold the same name, instance, commitments, gadgets
/// and proof; so a carrier on which one byte of the proof or one character
/// of a text that is read was changed makes a different request.
pub proof fn verify_request_tells_carriers_apart(a: CarrierView, b: CarrierView)
    requires
        verify_request_of(a) is Ok,
        verify_request_of(a) == verify_request_of(b),
    ensures
        a.name == b.name,
        a.instance == b.instance,
        a.commitments == b.commitments,
        a.gadgets == b.gadgets,
        a.proof == b.proof,
{
}

/// Every field has a getter and a setter of its own: no two fields share the
/// name of a host method, and no getter is named like a setter.
pub proof fn host_methods_are_distinct(a: Field, b: Field)
    ensures
        getter_name_of(a) == getter_name_of(b) ==> a == b,
        setter_name_of(a) == setter_name_of(b) ==> a == b,
        getter_name_of(a) != setter_name_of(b),
{
    reveal_strlit("getName");
    reveal_strlit("getInstance");
    reveal_strlit("getWitness");
    reveal_strlit("getGadgets");
    reveal_strlit("getCommitments");
    reveal_strlit("getProof");
    reveal_strlit("setName");
    reveal_strlit("setInstance");
    reveal_strlit("setWitness");
    reveal_strlit("setGadgets");
    reveal_strlit("setCommitments");
    reveal_strlit("setProof");
    assert(getter_name_of(a)[0] == 'g');
    assert(setter_name_of(b)[0] == 's');
    assert(getter_name_of(a).len() == setter_name_of(a).len());
    assert(getter_name_of(a).len() == match a {
        Field::Name => 7int,
        Field::Instance => 11,
        Field::Witness => 10,
        Field::Gadgets => 10,
        Field::Commitments => 14,
        Field::Proof => 8,
    });
    assert("getWitness"@[3] == 'W' && "getGadgets"@[3] == 'G');
    assert("setWitness"@[3] == 'W' && "setGadgets"@[3] == 'G');
}

/// The witness stays with the prover: two carriers that differ in nothing
/// but the witness make the same verifying request.
pub proof fn verify_ignores_witness(c: CarrierView, witness: Seq<char>)
    ensures
        verify_request_of(c.with_text(Field::Witness, witness)) == verify_request_of(c),
{
}

} // verus!

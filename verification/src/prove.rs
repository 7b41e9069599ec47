//! The proving call: what it reads from the carrier, what it asks of the
//! proof engine, and what it writes back.

use vstd::prelude::*;

use crate::carrier::{CarrierView, Field, ProofRequestCarrier};
use crate::error::{BridgeError, EngineFailure};

verus! {

/// What the proof engine is given to produce a proof.
#[derive(Clone, Debug, PartialEq, Eq)]
pub struct ProveRequest {
    pub name: String,
    pub instance: String,
    pub witness: String,
    pub gadgets: String,
}

/// A proving request as mathematical values.
pub ghost struct ProveRequestView {
    pub name: Seq<char>,
    pub instance: Seq<char>,
    pub witness: Seq<char>,
    pub gadgets: Seq<char>,
}

impl View for ProveRequest {
    type V = ProveRequestView;

    open spec fn view(&self) -> ProveRequestView {
        ProveRequestView {
            name: self.name@,
            instance: self.instance@,
            witness: self.witness@,
            gadgets: self.gadgets@,
        }
    }
}

/// What the proof engine hands back for a request that it could serve.
#[derive(Clone, Debug, PartialEq, Eq)]
pub struct ProveOutput {
    pub proof: Vec<u8>,
    pub commitments: String,
}

/// The fields that a proving call reads, in the order in which it reads them.
pub open spec fn prove_reads_of() -> Seq<Field> {
    seq![Field::Name, Field::Instance, Field::Witness, Field::Gadgets]
}

/// The fields that a successful proving call writes, in the order in which it
/// writes them: the commitments first, the proof last.
pub open spec fn prove_writes_of() -> Seq<Field> {
    seq![Field::Commitments, Field::Proof]
}

/// The request that a proving call makes of the engine for a carrier, or the
/// marshalling failure for the first field in reading order that is absent.
pub open spec fn prove_request_of(c: CarrierView) -> Result<ProveRequestView, BridgeError> {
    if c.name is None {
        Err(BridgeError::Marshal(Field::Name))
    } else if c.instance is None {
        Err(BridgeError::Marshal(Field::Instance))
    } else if c.witness is None {
        Err(BridgeError::Marshal(Field::Witness))
    } else if c.gadgets is None {
        Err(BridgeError::Marshal(Field::Gadgets))
    } else {
        Ok(
            ProveRequestView {
                name: c.name->0,
                instance: c.instance->0,
                witness: c.witness->0,
                gadgets: c.gadgets->0,
            },
        )
    }
}

/// The carrier after the engine has answered a proving request: with the
/// engine's commitments and proof where it succeeded, as before where it
/// failed.
pub open spec fn carrier_after_prove(
    c: CarrierView,
    outcome: Result<ProveOutput, EngineFailure>,
) -> CarrierView {
    match outcome {
        Ok(output) => c.with_text(Field::Commitments, output.commitments@).with_bytes(
            Field::Proof,
            output.proof@,
        ),
        Err(_) => c,
    }
}

/// What a proving call returns once the engine has answered.
pub open spec fn prove_result_of(outcome: Result<ProveOutput, EngineFailure>) -> Result<
    (),
    BridgeError,
> {
    match outcome {
        Ok(_) => Ok(()),
        Err(_) => Err(BridgeError::Engine),
    }
}

/// The fields that a proving call reads, in reading order.
pub fn prove_reads() -> (r: Vec<Field>)
    ensures
        r@ == prove_reads_of(),
{
    vec![Field::Name, Field::Instance, Field::Witness, Field::Gadgets]
}

/// The fields that a successful proving call writes, in writing order.
pub fn prove_writes() -> (r: Vec<Field>)
    ensures
        r@ == prove_writes_of(),
{
    vec![Field::Commitments, Field::Proof]
}

/// Gathers from the carrier what the engine needs to prove. Reads the name,
/// the instance, the witness and the gadgets, in that order, and fails at
/// the first that is absent. The commitments and the proof are not read.
pub fn prove_request(carrier: &ProofRequestCarrier) -> (r: Result<ProveRequest, BridgeError>)
    ensures
        match prove_request_of(carrier@) {
            Ok(v) => r is Ok && r->Ok_0@ == v,
            Err(e) => r == Err::<ProveRequest, BridgeError>(e),
        },
{
    let name = match carrier.read_text(Field::Name) {
        Ok(s) => s,
        Err(e) => {
            return Err(e);
        },
    };
    let instance = match carrier.read_text(Field::Instance) {
        Ok(s) => s,
        Err(e) => {
            return Err(e);
        },
    };
    let witness = match carrier.read_text(Field::Witness) {
        Ok(s) => s,
        Err(e) => {
            return Err(e);
        },
    };
    let gadgets = match carrier.read_text(Field::Gadgets) {
        Ok(s) => s,
        Err(e) => {
            return Err(e);
        },
    };
    Ok(ProveRequest { name, instance, witness, gadgets })
}

/// Takes the engine's answer to a proving request. On success the
/// commitments and then the proof are stored on the carrier, and nothing
/// else changes. On failure the carrier is left exactly as it was and the
/// call reports an engine error.
pub fn complete_prove(
    carrier: &mut ProofRequestCarrier,
    outcome: Result<ProveOutput, EngineFailure>,
) -> (r: Result<(), BridgeError>)
    ensures
        r == prove_result_of(outcome),
        final(carrier)@ == carrier_after_prove(old(carrier)@, outcome),
        outcome is Err ==> *final(carrier) == *old(carrier),
{
    match outcome {
        Ok(output) => {
            carrier.commitments = Some(output.commitments);
            carrier.proof = Some(output.proof);
            Ok(())
        },
        Err(_) => Err(BridgeError::Engine),
    }
}

/// One whole proving call, with the proof engine given as a function. The
/// four inputs are read; if one is absent the engine is not run, the carrier
/// stays as it was and the marshalling error names the field. Otherwise the
/// engine is run once on exactly those inputs, and its answer decides the
/// result and the carrier as [`complete_prove`] says.
pub fn ext_prove<E>(carrier: &mut ProofRequestCarrier, engine: E) -> (r: Result<(), BridgeError>)
    where E: FnOnce(ProveRequest) -> Result<ProveOutput, EngineFailure>
    requires
        forall|request: ProveRequest|
            prove_request_of(old(carrier)@) == Ok::<ProveRequestView, BridgeError>(request@)
                ==> engine.requires((request,)),
    ensures
        match prove_request_of(old(carrier)@) {
            Err(e) => r == Err::<(), BridgeError>(e) && *final(carrier) == *old(carrier),
            Ok(v) => exists|request: ProveRequest, outcome: Result<ProveOutput, EngineFailure>|
                request@ == v && #[trigger] engine.ensures((request,), outcome) && r
                    == prove_result_of(outcome) && final(carrier)@ == carrier_after_prove(
                    old(carrier)@,
                    outcome,
                ) && (outcome is Err ==> *final(carrier) == *old(carrier)),
        },
{
    match prove_request(carrier) {
        Err(e) => Err(e),
        Ok(request) => {
            let ghost asked = request;
            let outcome = engine(request);
            let ghost answered = outcome;
            let r = complete_prove(carrier, outcome);
            proof {
                assert(engine.ensures((asked,), answered));
            }
            r
        },
    }
}

} // verus!

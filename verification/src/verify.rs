//! The verifying call: what it reads from the carrier, what it asks of the
//! proof engine, and what it returns. It writes nothing.

use vstd::prelude::*;

use crate::carrier::{CarrierView, Field, ProofRequestCarrier};
use crate::error::{BridgeError, EngineFailure};

verus! {

/// What the proof engine is given to verify a proof. The engine takes the
/// proof before the commitments.
#[derive(Clone, Debug, PartialEq, Eq)]
pub struct VerifyRequest {
    pub name: String,
    pub instance: String,
    pub proof: Vec<u8>,
    pub commitments: String,
    pub gadgets: String,
}

/// A verifying request as mathematical values.
pub ghost struct VerifyRequestView {
    pub name: Seq<char>,
    pub instance: Seq<char>,
    pub proof: Seq<u8>,
    pub commitments: Seq<char>,
    pub gadgets: Seq<char>,
}

impl View for VerifyRequest {
    type V = VerifyRequestView;

    open spec fn view(&self) -> VerifyRequestView {
        VerifyRequestView {
            name: self.name@,
            instance: self.instance@,
            proof: self.proof@,
            commitments: self.commitments@,
            gadgets: self.gadgets@,
        }
    }
}

/// The fields that a verifying call reads, in the order in which it reads
/// them.
pub open spec fn verify_reads_of() -> Seq<Field> {
    seq![Field::Name, Field::Instance, Field::Commitments, Field::Gadgets, Field::Proof]
}

/// The request that a verifying call makes of the engine for a carrier, or
/// the marshalling failure for the first field in reading order that is
/// absent. The witness plays no part.
pub open spec fn verify_request_of(c: CarrierView) -> Result<VerifyRequestView, BridgeError> {
    if c.name is None {
        Err(BridgeError::Marshal(Field::Name))
    } else if c.instance is None {
        Err(BridgeError::Marshal(Field::Instance))
    } else if c.commitments is None {
        Err(BridgeError::Marshal(Field::Commitments))
    } else if c.gadgets is None {
        Err(BridgeError::Marshal(Field::Gadgets))
    } else if c.proof is None {
        Err(BridgeError::Marshal(Field::Proof))
    } else {
        Ok(
            VerifyRequestView {
                name: c.name->0,
                instance: c.instance->0,
                proof: c.proof->0,
                commitments: c.commitments->0,
                gadgets: c.gadgets->0,
            },
        )
    }
}

/// What a verifying call returns once the engine has answered: the engine's
/// verdict, or an engine error where it gave none.
pub open spec fn verify_result_of(outcome: Result<bool, EngineFailure>) -> Result<
    bool,
    BridgeError,
> {
    match outcome {
        Ok(valid) => Ok(valid),
        Err(_) => Err(BridgeError::Engine),
    }
}

/// The fields that a verifying call reads, in reading order.
pub fn verify_reads() -> (r: Vec<Field>)
    ensures
        r@ == verify_reads_of(),
{
    vec![Field::Name, Field::Instance, Field::Commitments, Field::Gadgets, Field::Proof]
}

/// Gathers from the carrier what the engine needs to verify. Reads the name,
/// the instance, the commitments, the gadgets and the proof, in that order,
/// and fails at the first that is absent.
pub fn verify_request(carrier: &ProofRequestCarrier) -> (r: Result<VerifyRequest, BridgeError>)
    ensures
        match verify_request_of(carrier@) {
            Ok(v) => r is Ok && r->Ok_0@ == v,
            Err(e) => r == Err::<VerifyRequest, BridgeError>(e),
        },
{
    let name = match carrier.read_text(Field::Name) {
        Ok(s) => s,
        Err(e) => {
            return Err(e);
        },
    };
    let instance = match carrier.read_text(Field::Instance) {
        Ok(s) => s,
        Err(e) => {
            return Err(e);
        },
    };
    let commitments = match carrier.read_text(Field::Commitments) {
        Ok(s) => s,
        Err(e) => {
            return Err(e);
        },
    };
    let gadgets = match carrier.read_text(Field::Gadgets) {
        Ok(s) => s,
        Err(e) => {
            return Err(e);
        },
    };
    let proof = match carrier.read_bytes(Field::Proof) {
        Ok(b) => b,
        Err(e) => {
            return Err(e);
        },
    };
    Ok(VerifyRequest { name, instance, proof, commitments, gadgets })
}

/// Takes the engine's answer to a verifying request. A verdict is passed on
/// as it is, `false` included: a proof that does not hold is a result, not a
/// failure. Where the engine gave no verdict the call reports an engine
/// error.
pub fn complete_verify(outcome: Result<bool, EngineFailure>) -> (r: Result<bool, BridgeError>)
    ensures
        r == verify_result_of(outcome),
{
    match outcome {
        Ok(valid) => Ok(valid),
        Err(_) => Err(BridgeError::Engine),
    }
}

/// jni's conversion of a `bool` into the host's boolean: `JValue::from` wraps
/// the bool as a host value, and `jboolean::try_from` takes the boolean out
/// of it again. The contract claims that this yields 1 for `true` and 0 for
/// `false`, and never fails.
#[verifier::external_body]
fn host_boolean(valid: bool) -> (r: Option<u8>)
    ensures
        r == Some(if valid { 1u8 } else { 0u8 }),
{
    jni::sys::jboolean::try_from(jni::objects::JValue::from(valid)).ok()
}

/// The verdict in the form in which it is returned to the host: 1 for a
/// proof that holds, 0 for one that does not.
pub fn host_verdict(valid: bool) -> (r: u8)
    ensures
        r == if valid { 1u8 } else { 0u8 },
{
    match host_boolean(valid) {
        Some(b) => b,
        None => 0,
    }
}

/// One whole verifying call, with the proof engine given as a function. The
/// five inputs are read; if one is absent the engine is not run and the
/// marshalling error names the field. Otherwise the engine is run once on
/// exactly those inputs and its answer decides the result as
/// [`complete_verify`] says. The carrier is only borrowed for reading.
pub fn ext_verify<E>(carrier: &ProofRequestCarrier, engine: E) -> (r: Result<bool, BridgeError>)
    where E: FnOnce(VerifyRequest) -> Result<bool, EngineFailure>
    requires
        forall|request: VerifyRequest|
            verify_request_of(carrier@) == Ok::<VerifyRequestView, BridgeError>(request@)
                ==> engine.requires((request,)),
    ensures
        match verify_request_of(carrier@) {
            Err(e) => r == Err::<bool, BridgeError>(e),
            Ok(v) => exists|request: VerifyRequest, outcome: Result<bool, EngineFailure>|
                request@ == v && #[trigger] engine.ensures((request,), outcome) && r
                    == verify_result_of(outcome),
        },
{
    match verify_request(carrier) {
        Err(e) => Err(e),
        Ok(request) => {
            let ghost asked = request;
            let outcome = engine(request);
            let r = complete_verify(outcome);
            proof {
                assert(engine.ensures((asked,), outcome));
            }
            r
        },
    }
}

} // verus!

use bulletproofs_bridge::carrier::{Field, ProofRequestCarrier};
use bulletproofs_bridge::error::{BridgeError, EngineFailure};
use bulletproofs_bridge::prove::{
    complete_prove, ext_prove, prove_reads, prove_request, prove_writes, ProveOutput, ProveRequest,
};
use bulletproofs_bridge::verify::{
    complete_verify, ext_verify, host_verdict, verify_reads, verify_request, VerifyRequest,
};

fn proving_carrier(witness: &str) -> ProofRequestCarrier {
    ProofRequestCarrier {
        name: Some(String::from("range_proof")),
        instance: Some(String::from("0..100")),
        witness: Some(String::from(witness)),
        gadgets: Some(String::from("<range-circuit-spec>")),
        commitments: None,
        proof: None,
    }
}

fn proved_carrier() -> ProofRequestCarrier {
    ProofRequestCarrier {
        commitments: Some(String::from("old commitments")),
        proof: Some(vec![7, 7, 7]),
        ..proving_carrier("42")
    }
}

fn without(field: Field, mut c: ProofRequestCarrier) -> ProofRequestCarrier {
    match field {
        Field::Name => c.name = None,
        Field::Instance => c.instance = None,
        Field::Witness => c.witness = None,
        Field::Gadgets => c.gadgets = None,
        Field::Commitments => c.commitments = None,
        Field::Proof => c.proof = None,
    }
    c
}

// A stand-in for the proof engine. It knows one circuit, "range_proof", whose
// instance is "low..high" and whose witness is a number. The proof is the
// instance, the gadgets and the commitments, each behind its length; the
// commitments are the witness shifted by a fixed amount.
fn frame(parts: &[&str]) -> Vec<u8> {
    let mut out: Vec<u8> = Vec::new();
    for part in parts {
        out.push(part.len() as u8);
        out.extend_from_slice(part.as_bytes());
    }
    out
}

fn range_of(instance: &str) -> Option<(u64, u64)> {
    let mut ends = instance.split("..");
    let low = ends.next()?.parse::<u64>().ok()?;
    let high = ends.next()?.parse::<u64>().ok()?;
    Some((low, high))
}

fn stand_in_prove(request: ProveRequest) -> Result<ProveOutput, EngineFailure> {
    if request.name != "range_proof" || range_of(&request.instance).is_none() {
        return Err(EngineFailure {});
    }
    let value = match request.witness.parse::<u64>() {
        Ok(v) => v,
        Err(_) => return Err(EngineFailure {}),
    };
    let commitments = format!("{:x}", value + 1000);
    let proof = frame(&[&request.instance, &request.gadgets, &commitments]);
    Ok(ProveOutput { proof, commitments })
}

fn stand_in_verify(request: VerifyRequest) -> Result<bool, EngineFailure> {
    if request.name != "range_proof" {
        return Err(EngineFailure {});
    }
    let (low, high) = match range_of(&request.instance) {
        Some(r) => r,
        None => return Err(EngineFailure {}),
    };
    let value = match u64::from_str_radix(&request.commitments, 16) {
        Ok(v) if v >= 1000 => v - 1000,
        _ => return Err(EngineFailure {}),
    };
    let expected = frame(&[&request.instance, &request.gadgets, &request.commitments]);
    Ok(request.proof == expected && low <= value && value < high)
}

#[test]
fn prove_reads_four_fields_in_order() {
    assert_eq!(
        prove_reads(),
        vec![Field::Name, Field::Instance, Field::Witness, Field::Gadgets]
    );
}

#[test]
fn prove_writes_commitments_before_proof() {
    assert_eq!(prove_writes(), vec![Field::Commitments, Field::Proof]);
}

#[test]
fn verify_reads_five_fields_in_order() {
    assert_eq!(
        verify_reads(),
        vec![
            Field::Name,
            Field::Instance,
            Field::Commitments,
            Field::Gadgets,
            Field::Proof
        ]
    );
}

#[test]
fn prove_request_carries_the_four_inputs() {
    let request = prove_request(&proving_carrier("42"));
    assert_eq!(
        request,
        Ok(ProveRequest {
            name: String::from("range_proof"),
            instance: String::from("0..100"),
            witness: String::from("42"),
            gadgets: String::from("<range-circuit-spec>"),
        })
    );
}

#[test]
fn prove_request_ignores_earlier_outputs() {
    assert_eq!(
        prove_request(&proved_carrier()),
        prove_request(&proving_carrier("42"))
    );
}

#[test]
fn prove_request_names_the_absent_field() {
    for field in prove_reads() {
        let c = without(field, proving_carrier("42"));
        assert_eq!(prove_request(&c), Err(BridgeError::Marshal(field)));
    }
}

#[test]
fn prove_request_names_the_first_absent_field() {
    let c = without(Field::Gadgets, without(Field::Instance, proving_carrier("42")));
    assert_eq!(
        prove_request(&c),
        Err(BridgeError::Marshal(Field::Instance))
    );
    assert_eq!(
        prove_request(&ProofRequestCarrier::empty()),
        Err(BridgeError::Marshal(Field::Name))
    );
}

#[test]
fn complete_prove_stores_commitments_and_proof() {
    let before = proved_carrier();
    let mut c = before.clone();
    let output = ProveOutput {
        proof: vec![0, 255, 16, 0],
        commitments: String::from("new commitments"),
    };
    assert_eq!(complete_prove(&mut c, Ok(output)), Ok(()));
    assert_eq!(c.commitments, Some(String::from("new commitments")));
    assert_eq!(c.proof, Some(vec![0u8, 255, 16, 0]));
    assert_eq!(c.name, before.name);
    assert_eq!(c.instance, before.instance);
    assert_eq!(c.witness, before.witness);
    assert_eq!(c.gadgets, before.gadgets);
}

#[test]
fn complete_prove_keeps_the_carrier_when_the_engine_fails() {
    let before = proved_carrier();
    let mut c = before.clone();
    assert_eq!(
        complete_prove(&mut c, Err(EngineFailure {})),
        Err(BridgeError::Engine)
    );
    assert_eq!(c, before);
    assert_eq!(c.commitments, Some(String::from("old commitments")));
    assert_eq!(c.proof, Some(vec![7u8, 7, 7]));
}

#[test]
fn ext_prove_hands_the_engine_the_request_and_stores_its_answer() {
    let mut c = proving_carrier("42");
    let mut seen: Option<ProveRequest> = None;
    let r = ext_prove(&mut c, |request: ProveRequest| {
        seen = Some(request);
        Ok(ProveOutput {
            proof: vec![5, 4, 3],
            commitments: String::from("cc"),
        })
    });
    assert_eq!(r, Ok(()));
    assert_eq!(seen, prove_request(&proving_carrier("42")).ok());
    assert_eq!(c.commitments, Some(String::from("cc")));
    assert_eq!(c.proof, Some(vec![5u8, 4, 3]));
    assert_eq!(
        ProofRequestCarrier {
            commitments: None,
            proof: None,
            ..c
        },
        proving_carrier("42")
    );
}

#[test]
fn ext_prove_does_not_run_the_engine_on_an_incomplete_carrier() {
    for field in prove_reads() {
        let before = without(field, proved_carrier());
        let mut c = before.clone();
        let mut ran = false;
        let r = ext_prove(&mut c, |request: ProveRequest| {
            ran = true;
            stand_in_prove(request)
        });
        assert_eq!(r, Err(BridgeError::Marshal(field)));
        assert!(!ran);
        assert_eq!(c, before);
    }
}

#[test]
fn ext_prove_keeps_commitments_and_proof_when_the_engine_fails() {
    let before = proved_carrier();
    let mut c = before.clone();
    let r = ext_prove(&mut c, |_request: ProveRequest| Err(EngineFailure {}));
    assert_eq!(r, Err(BridgeError::Engine));
    assert_eq!(c, before);
}

#[test]
fn ext_prove_reports_a_request_that_the_engine_rejects() {
    let before = proving_carrier("not a number");
    let mut c = before.clone();
    assert_eq!(ext_prove(&mut c, stand_in_prove), Err(BridgeError::Engine));
    assert_eq!(c, before);
}

#[test]
fn verify_request_carries_the_five_inputs() {
    assert_eq!(
        verify_request(&proved_carrier()),
        Ok(VerifyRequest {
            name: String::from("range_proof"),
            instance: String::from("0..100"),
            proof: vec![7, 7, 7],
            commitments: String::from("old commitments"),
            gadgets: String::from("<range-circuit-spec>"),
        })
    );
}

#[test]
fn verify_request_does_not_need_the_witness() {
    let c = without(Field::Witness, proved_carrier());
    assert_eq!(verify_request(&c), verify_request(&proved_carrier()));
}

#[test]
fn verify_request_names_the_absent_field() {
    for field in verify_reads() {
        let c = without(field, proved_carrier());
        assert_eq!(verify_request(&c), Err(BridgeError::Marshal(field)));
    }
}

#[test]
fn verify_request_names_the_first_absent_field() {
    let c = without(Field::Proof, without(Field::Commitments, proved_carrier()));
    assert_eq!(
        verify_request(&c),
        Err(BridgeError::Marshal(Field::Commitments))
    );
    let c = without(Field::Proof, without(Field::Gadgets, proved_carrier()));
    assert_eq!(verify_request(&c), Err(BridgeError::Marshal(Field::Gadgets)));
}

#[test]
fn complete_verify_passes_the_verdict_on() {
    assert_eq!(complete_verify(Ok(true)), Ok(true));
    assert_eq!(complete_verify(Ok(false)), Ok(false));
    assert_eq!(
        complete_verify(Err(EngineFailure {})),
        Err(BridgeError::Engine)
    );
}

#[test]
fn host_verdict_is_one_or_zero() {
    assert_eq!(host_verdict(true), 1u8);
    assert_eq!(host_verdict(false), 0u8);
}

#[test]
fn ext_verify_hands_the_engine_the_request() {
    let c = proved_carrier();
    let mut seen: Option<VerifyRequest> = None;
    let r = ext_verify(&c, |request: VerifyRequest| {
        seen = Some(request);
        Ok(true)
    });
    assert_eq!(r, Ok(true));
    assert_eq!(seen, verify_request(&c).ok());
}

#[test]
fn ext_verify_does_not_run_the_engine_on_an_incomplete_carrier() {
    for field in verify_reads() {
        let c = without(field, proved_carrier());
        let mut ran = false;
        let r = ext_verify(&c, |_request: VerifyRequest| {
            ran = true;
            Ok(true)
        });
        assert_eq!(r, Err(BridgeError::Marshal(field)));
        assert!(!ran);
    }
}

#[test]
fn ext_verify_leaves_every_field_as_it_was() {
    let outcomes: Vec<Result<bool, EngineFailure>> =
        vec![Ok(true), Ok(false), Err(EngineFailure {})];
    for outcome in outcomes {
        let c = proved_carrier();
        let snapshot = c.clone();
        let _ = ext_verify(&c, |_request: VerifyRequest| outcome);
        assert_eq!(c, snapshot);
    }
    let incomplete = without(Field::Proof, proved_carrier());
    let snapshot = incomplete.clone();
    let _ = ext_verify(&incomplete, stand_in_verify);
    assert_eq!(incomplete, snapshot);
}

#[test]
fn an_invalid_proof_is_a_result_and_a_malformed_request_a_failure() {
    let mut c = proving_carrier("42");
    assert_eq!(ext_prove(&mut c, stand_in_prove), Ok(()));
    let mut forged = c.clone();
    forged.proof = Some(vec![1, 2, 3]);
    assert_eq!(ext_verify(&forged, stand_in_verify), Ok(false));
    let mut unknown = c.clone();
    unknown.name = Some(String::from("no such circuit"));
    assert_eq!(
        ext_verify(&unknown, stand_in_verify),
        Err(BridgeError::Engine)
    );
}

#[test]
fn range_proof_scenario_with_a_stand_in_engine() {
    let mut c = proving_carrier("42");
    assert_eq!(ext_prove(&mut c, stand_in_prove), Ok(()));
    assert!(!c.proof.clone().unwrap().is_empty());
    assert!(!c.commitments.clone().unwrap().is_empty());
    assert_eq!(ext_verify(&c, stand_in_verify), Ok(true));

    let mut outside = proving_carrier("101");
    assert_eq!(ext_prove(&mut outside, stand_in_prove), Ok(()));
    assert_eq!(outside.instance, Some(String::from("0..100")));
    assert_eq!(ext_verify(&outside, stand_in_verify), Ok(false));
}

#[test]
fn proof_bytes_are_read_back_as_the_engine_wrote_them() {
    let mut c = proving_carrier("42");
    let expected = stand_in_prove(prove_request(&c).unwrap()).unwrap();
    assert_eq!(ext_prove(&mut c, stand_in_prove), Ok(()));
    let read_back = c.read_bytes(Field::Proof).unwrap();
    assert_eq!(read_back.len(), expected.proof.len());
    assert_eq!(read_back, expected.proof);
    assert_eq!(c.read_text(Field::Commitments), Ok(expected.commitments));
}

#[test]
fn verify_sees_every_changed_byte_and_character() {
    let mut good = proving_carrier("42");
    assert_eq!(ext_prove(&mut good, stand_in_prove), Ok(()));
    let base = verify_request(&good).unwrap();

    let proof = good.proof.clone().unwrap();
    for i in 0..proof.len() {
        let mut c = good.clone();
        let mut bytes = proof.clone();
        bytes[i] ^= 0x01;
        c.proof = Some(bytes.clone());
        let request = verify_request(&c).unwrap();
        assert_eq!(request.proof, bytes);
        assert_ne!(request, base);
        assert_ne!(ext_verify(&c, stand_in_verify), Ok(true));
    }
    for field in vec![Field::Commitments, Field::Instance, Field::Gadgets] {
        let mut c = good.clone();
        let mut text = c.read_text(field).unwrap();
        text.push('x');
        assert_eq!(c.write_text(field, text), Ok(()));
        assert_ne!(verify_request(&c).unwrap(), base);
        assert_ne!(ext_verify(&c, stand_in_verify), Ok(true));
    }
}

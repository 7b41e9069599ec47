//! The request carrier and the typed access to its fields.

use vstd::prelude::*;

use crate::error::BridgeError;

verus! {

/// The six fields of a carrier.
#[derive(Clone, Copy, Debug, PartialEq, Eq, Structural)]
pub enum Field {
    Name,
    Instance,
    Witness,
    Gadgets,
    Commitments,
    Proof,
}

impl Field {
    /// Whether the field holds text. The only binary field is the proof.
    pub open spec fn is_text(self) -> bool {
        self != Field::Proof
    }

    /// Executable form of [`Field::is_text`].
    pub fn holds_text(self) -> (r: bool)
        ensures
            r == self.is_text(),
    {
        match self {
            Field::Proof => false,
            _ => true,
        }
    }
}

/// One proof request as the host holds it. A field that the host left unset,
/// or that could not be fetched from it, is `None`.
#[derive(Clone, Debug, PartialEq, Eq)]
pub struct ProofRequestCarrier {
    /// Identifier of the circuit to prove or verify.
    pub name: Option<String>,
    /// Serialized public inputs.
    pub instance: Option<String>,
    /// Serialized private inputs; read only when proving.
    pub witness: Option<String>,
    /// Serialized circuit specification.
    pub gadgets: Option<String>,
    /// Serialized commitments; written by proving, read by verifying.
    pub commitments: Option<String>,
    /// The serialized proof; written by proving, read by verifying.
    pub proof: Option<Vec<u8>>,
}

/// What a carrier holds, as mathematical values.
pub ghost struct CarrierView {
    pub name: Option<Seq<char>>,
    pub instance: Option<Seq<char>>,
    pub witness: Option<Seq<char>>,
    pub gadgets: Option<Seq<char>>,
    pub commitments: Option<Seq<char>>,
    pub proof: Option<Seq<u8>>,
}

/// The characters of an optional string.
pub open spec fn text_of(value: Option<String>) -> Option<Seq<char>> {
    match value {
        Some(s) => Some(s@),
        None => None,
    }
}

/// The bytes of an optional byte vector.
pub open spec fn bytes_of(value: Option<Vec<u8>>) -> Option<Seq<u8>> {
    match value {
        Some(b) => Some(b@),
        None => None,
    }
}

impl CarrierView {
    /// The carrier on which every field is absent.
    pub open spec fn empty() -> CarrierView {
        CarrierView {
            name: None,
            instance: None,
            witness: None,
            gadgets: None,
            commitments: None,
            proof: None,
        }
    }

    /// The text that `field` holds; `None` where it is absent or binary.
    pub open spec fn text(self, field: Field) -> Option<Seq<char>> {
        match field {
            Field::Name => self.name,
            Field::Instance => self.instance,
            Field::Witness => self.witness,
            Field::Gadgets => self.gadgets,
            Field::Commitments => self.commitments,
            Field::Proof => None,
        }
    }

    /// The bytes that `field` holds; `None` where it is absent or textual.
    pub open spec fn bytes(self, field: Field) -> Option<Seq<u8>> {
        match field {
            Field::Proof => self.proof,
            _ => None,
        }
    }

    /// Whether `field` holds a value.
    pub open spec fn has(self, field: Field) -> bool {
        self.text(field) is Some || self.bytes(field) is Some
    }

    /// The carrier with `value` stored in the textual field `field`, and
    /// unchanged for the binary field.
    pub open spec fn with_text(self, field: Field, value: Seq<char>) -> CarrierView {
        match field {
            Field::Name => CarrierView { name: Some(value), ..self },
            Field::Instance => CarrierView { instance: Some(value), ..self },
            Field::Witness => CarrierView { witness: Some(value), ..self },
            Field::Gadgets => CarrierView { gadgets: Some(value), ..self },
            Field::Commitments => CarrierView { commitments: Some(value), ..self },
            Field::Proof => self,
        }
    }

    /// The carrier with `value` stored in the binary field `field`, and
    /// unchanged for a textual field.
    pub open spec fn with_bytes(self, field: Field, value: Seq<u8>) -> CarrierView {
        match field {
            Field::Proof => CarrierView { proof: Some(value), ..self },
            _ => self,
        }
    }
}

impl View for ProofRequestCarrier {
    type V = CarrierView;

    open spec fn view(&self) -> CarrierView {
        CarrierView {
            name: text_of(self.name),
            instance: text_of(self.instance),
            witness: text_of(self.witness),
            gadgets: text_of(self.gadgets),
            commitments: text_of(self.commitments),
            proof: bytes_of(self.proof),
        }
    }
}

/// A copy of an optional string, or the marshalling failure for `field`.
fn copy_text(value: &Option<String>, field: Field) -> (r: Result<String, BridgeError>)
    ensures
        match text_of(*value) {
            Some(s) => r is Ok && r->Ok_0@ == s,
            None => r == Err::<String, BridgeError>(BridgeError::Marshal(field)),
        },
{
    match value {
        Some(s) => Ok(s.clone()),
        None => Err(BridgeError::Marshal(field)),
    }
}

impl ProofRequestCarrier {
    /// A carrier with every field absent.
    pub fn empty() -> (r: ProofRequestCarrier)
        ensures
            r@ == CarrierView::empty(),
    {
        ProofRequestCarrier {
            name: None,
            instance: None,
            witness: None,
            gadgets: None,
            commitments: None,
            proof: None,
        }
    }

    /// Reads a textual field as an owned string with the same characters.
    /// Fails with a marshalling error for `field` exactly when the field is
    /// absent or is the binary one.
    pub fn read_text(&self, field: Field) -> (r: Result<String, BridgeError>)
        ensures
            match self@.text(field) {
                Some(s) => r is Ok && r->Ok_0@ == s,
                None => r == Err::<String, BridgeError>(BridgeError::Marshal(field)),
            },
    {
        match field {
            Field::Name => copy_text(&self.name, field),
            Field::Instance => copy_text(&self.instance, field),
            Field::Witness => copy_text(&self.witness, field),
            Field::Gadgets => copy_text(&self.gadgets, field),
            Field::Commitments => copy_text(&self.commitments, field),
            Field::Proof => Err(BridgeError::Marshal(field)),
        }
    }

    /// Reads the binary field as an owned copy: the same bytes, the same
    /// length. Fails with a marshalling error for `field` exactly when the
    /// field is absent or is a textual one.
    pub fn read_bytes(&self, field: Field) -> (r: Result<Vec<u8>, BridgeError>)
        ensures
            match self@.bytes(field) {
                Some(b) => r is Ok && r->Ok_0@ == b,
                None => r == Err::<Vec<u8>, BridgeError>(BridgeError::Marshal(field)),
            },
    {
        match field {
            Field::Proof => match &self.proof {
                Some(b) => Ok(b.clone()),
                None => Err(BridgeError::Marshal(field)),
            },
            _ => Err(BridgeError::Marshal(field)),
        }
    }

    /// Stores `value` in a textual field and touches no other field. For the
    /// binary field it fails with a marshalling error and changes nothing.
    pub fn write_text(&mut self, field: Field, value: String) -> (r: Result<(), BridgeError>)
        ensures
            field.is_text() ==> r is Ok && final(self)@ == old(self)@.with_text(field, value@),
            !field.is_text() ==> r == Err::<(), BridgeError>(BridgeError::Marshal(field))
                && *final(self) == *old(self),
    {
        match field {
            Field::Name => {
                self.name = Some(value);
            },
            Field::Instance => {
                self.instance = Some(value);
            },
            Field::Witness => {
                self.witness = Some(value);
            },
            Field::Gadgets => {
                self.gadgets = Some(value);
            },
            Field::Commitments => {
                self.commitments = Some(value);
            },
            Field::Proof => {
                return Err(BridgeError::Marshal(field));
            },
        }
        Ok(())
    }

    /// Stores `value` in the binary field, byte for byte, and touches no
    /// other field. For a textual field it fails with a marshalling error
    /// and changes nothing.
    pub fn write_bytes(&mut self, field: Field, value: Vec<u8>) -> (r: Result<(), BridgeError>)
        ensures
            !field.is_text() ==> r is Ok && final(self)@ == old(self)@.with_bytes(field, value@),
            field.is_text() ==> r == Err::<(), BridgeError>(BridgeError::Marshal(field))
                && *final(self) == *old(self),
    {
        match field {
            Field::Proof => {
                self.proof = Some(value);
                Ok(())
            },
            _ => Err(BridgeError::Marshal(field)),
        }
    }
}

} // verus!

//! Proof submissions and the front end of the proof verifier.
//!
//! The verifier looks at the shape of a submission before anything else. A
//! shape that the verification key does not expect is a [`ShapeError`]; it is
//! told apart from a proof that fails. A well-shaped submission is accepted
//! exactly when the pairing equation holds under the key. The embedding
//! program evaluates that equation and passes the outcome in as a `bool`.

use vstd::prelude::*;
use crate::session::WORD_SIZE;

verus! {

/// Position, among the public inputs, of the commitment that binds a proof to
/// the session's last commitment.
pub const BINDING_SLOT: usize = 0;

/// Position, among the public inputs, of the commitment that an accepted proof
/// leaves behind.
pub const NEXT_SLOT: usize = 1;

/// What the fixed verification key expects of a submission: how many public
/// inputs it takes. Each of them is one word long.
#[derive(Clone, Copy, Debug, PartialEq, Eq, Structural)]
pub struct KeyShape {
    pub input_count: usize,
}

impl KeyShape {
    /// A key of the judge has room for the binding commitment and for the
    /// next one.
    pub open spec fn wf(self) -> bool {
        self.input_count > NEXT_SLOT
    }
}

/// How a submission fails to fit the verification key.
#[derive(Clone, Copy, Debug, PartialEq, Eq, Structural)]
pub enum ShapeError {
    /// The proof holds no bytes.
    EmptyProof,
    /// The number of public inputs is not the one the key expects.
    InputCount,
    /// Some public input is not one word long.
    InputSize,
}

/// The verifier's verdict on a submission of the right shape.
#[derive(Clone, Copy, Debug, PartialEq, Eq, Structural)]
pub struct VerificationResult {
    pub accepted: bool,
}

/// A proof offered for one move of one session.
#[derive(Debug, PartialEq, Eq)]
pub struct ProofSubmission {
    pub session_id: u32,
    pub proof_bytes: Vec<u8>,
    pub public_inputs: Vec<Vec<u8>>,
}

/// The mathematical value of a [`ProofSubmission`].
pub ghost struct SubmissionView {
    pub session_id: u32,
    pub proof_bytes: Seq<u8>,
    pub public_inputs: Seq<Seq<u8>>,
}

/// The public inputs as sequences of bytes.
pub open spec fn words(inputs: Seq<Vec<u8>>) -> Seq<Seq<u8>> {
    Seq::new(inputs.len(), |i: int| inputs[i]@)
}

impl View for ProofSubmission {
    type V = SubmissionView;

    open spec fn view(&self) -> SubmissionView {
        SubmissionView {
            session_id: self.session_id,
            proof_bytes: self.proof_bytes@,
            public_inputs: words(self.public_inputs@),
        }
    }
}

/// Whether every public input is one word long.
pub open spec fn all_words(inputs: Seq<Seq<u8>>) -> bool {
    forall|i: int| 0 <= i < inputs.len() ==> (#[trigger] inputs[i]).len() == WORD_SIZE
}

/// The first fault in a submission's shape, if it has one: an empty proof,
/// then a wrong number of public inputs, then an input of the wrong size.
pub open spec fn shape_fault(proof_bytes: Seq<u8>, inputs: Seq<Seq<u8>>, key: KeyShape) -> Option<
    ShapeError,
> {
    if proof_bytes.len() == 0 {
        Some(ShapeError::EmptyProof)
    } else if inputs.len() != key.input_count {
        Some(ShapeError::InputCount)
    } else if !all_words(inputs) {
        Some(ShapeError::InputSize)
    } else {
        None
    }
}

/// What the verifier answers: the shape fault where there is one, else the
/// verdict of the pairing equation.
pub open spec fn verdict(
    proof_bytes: Seq<u8>,
    inputs: Seq<Seq<u8>>,
    key: KeyShape,
    pairing_holds: bool,
) -> Result<VerificationResult, ShapeError> {
    match shape_fault(proof_bytes, inputs, key) {
        Some(fault) => Err(fault),
        None => Ok(VerificationResult { accepted: pairing_holds }),
    }
}

/// Holds the shape of a submission against the verification key.
pub fn check_shape(proof_bytes: &Vec<u8>, public_inputs: &Vec<Vec<u8>>, key: &KeyShape) -> (fit:
    Result<(), ShapeError>)
    ensures
        fit == match shape_fault(proof_bytes@, words(public_inputs@), *key) {
            Some(fault) => Err::<(), ShapeError>(fault),
            None => Ok(()),
        },
{
    if proof_bytes.len() == 0 {
        return Err(ShapeError::EmptyProof);
    }
    if public_inputs.len() != key.input_count {
        return Err(ShapeError::InputCount);
    }
    let ghost inputs = words(public_inputs@);
    let mut i: usize = 0;
    while i < public_inputs.len()
        invariant
            i <= public_inputs.len(),
            proof_bytes@.len() != 0,
            public_inputs.len() == key.input_count,
            inputs == words(public_inputs@),
            forall|j: int| 0 <= j < i ==> (#[trigger] inputs[j]).len() == WORD_SIZE,
        decreases public_inputs.len() - i,
    {
        if public_inputs[i].len() != WORD_SIZE {
            assert(inputs[i as int] == public_inputs@[i as int]@);
            return Err(ShapeError::InputSize);
        }
        assert(inputs[i as int] == public_inputs@[i as int]@);
        i += 1;
    }
    Ok(())
}

/// The proof verifier. A submission that does not fit the key is an error of
/// its own; one that fits is accepted exactly when the pairing equation holds.
/// The answer depends on the arguments alone and nothing is changed.
pub fn verify(
    proof_bytes: &Vec<u8>,
    public_inputs: &Vec<Vec<u8>>,
    key: &KeyShape,
    pairing_holds: bool,
) -> (answer: Result<VerificationResult, ShapeError>)
    ensures
        answer == verdict(proof_bytes@, words(public_inputs@), *key, pairing_holds),
{
    match check_shape(proof_bytes, public_inputs, key) {
        Err(fault) => Err(fault),
        Ok(()) => Ok(VerificationResult { accepted: pairing_holds }),
    }
}

} // verus!

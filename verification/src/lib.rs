//! A minimal greeting contract: one stored text message, a read operation,
//! an unconditional write, and a write gated on the outcome that an external
//! zero-knowledge proof verifier reported for a caller-supplied proof.
//!
//! The cryptographic check itself (Groth16 over bn128) is the hosting
//! environment's capability: the host runs the verifier and hands this
//! library the outcome. Everything the contract decides from that outcome
//! is specified and verified here.

use vstd::prelude::*;

verus! {

/// The text a freshly instantiated contract greets with.
pub open spec fn default_greeting() -> Seq<char> {
    "Hello"@
}

/// What the external proof verifier reported for one `(proof, inputs)` pair.
#[derive(Clone, Copy, PartialEq, Eq, Debug)]
pub enum ProofOutcome {
    /// The proof parsed and is cryptographically valid for the public inputs.
    Valid,
    /// The proof parsed but is not valid for the public inputs.
    Invalid,
    /// The verifying key, the proof or the inputs could not be parsed at all.
    Malformed,
}

/// Why a gated write was refused.
#[derive(Clone, Copy, PartialEq, Eq, Debug)]
pub enum GreetingError {
    /// The proof was well formed but cryptographically invalid.
    InvalidProof,
    /// Integrity failure: the verifier could not even parse its input.
    MalformedRequest,
}

/// The whole persistent state: one text message.
pub struct Contract {
    message: String,
}

impl View for Contract {
    type V = Seq<char>;

    closed spec fn view(&self) -> Seq<char> {
        self.message@
    }
}

impl Default for Contract {
    /// A fresh contract holds the default greeting.
    fn default() -> (r: Self)
        ensures
            r@ == default_greeting(),
    {
        Contract { message: "Hello".to_owned() }
    }
}

impl Contract {
    /// Returns the stored greeting. Reading changes nothing.
    pub fn get_greeting(&self) -> (r: String)
        ensures
            r@ == self@,
    {
        self.message.clone()
    }

    /// Unconditionally replaces the stored greeting with `message`.
    pub fn set_greeting(&mut self, message: String)
        ensures
            final(self)@ == message@,
    {
        self.message = message;
    }

    /// Replaces the stored greeting only when the verifier found the
    /// caller's proof valid; otherwise leaves the state untouched and says
    /// why, telling a rejected proof apart from an unparsable request.
    pub fn set_verified_greeting(
        &mut self,
        message: String,
        outcome: ProofOutcome,
    ) -> (r: Result<(), GreetingError>)
        ensures
            r is Ok <==> outcome == ProofOutcome::Valid,
            outcome == ProofOutcome::Valid ==> final(self)@ == message@,
            outcome == ProofOutcome::Invalid ==> r == Err::<(), GreetingError>(
                GreetingError::InvalidProof,
            ),
            outcome == ProofOutcome::Malformed ==> r == Err::<(), GreetingError>(
                GreetingError::MalformedRequest,
            ),
            r is Err ==> *final(self) == *old(self),
    {
        match outcome {
            ProofOutcome::Valid => {
                self.set_greeting(message);
                Ok(())
            },
            ProofOutcome::Invalid => Err(GreetingError::InvalidProof),
            ProofOutcome::Malformed => Err(GreetingError::MalformedRequest),
        }
    }
}

/// Round trip: storing any text and then reading gives back exactly that
/// text. The premises are what `set_greeting` leaves behind and what
/// `get_greeting` returns of that state.
pub proof fn lemma_set_then_get_round_trip(
    stored: Contract,
    message: String,
    reply: String,
)
    requires
        stored@ == message@,
        reply@ == stored@,
    ensures
        reply@ == message@,
{
}

/// Reads are idempotent: two reads of one state, with no write between
/// them, return identical text. The premises are what `get_greeting`
/// returns of one and the same state.
pub proof fn lemma_repeated_reads_agree(c: Contract, first: String, second: String)
    requires
        first@ == c@,
        second@ == c@,
    ensures
        first@ == second@,
{
}

} // verus!

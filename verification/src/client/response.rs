//! The uniform success-or-error value the capability wrappers return.
use vstd::prelude::*;

verus! {

/// An immutable status/message pair summarizing the outcome of a wrapped
/// host call.
///
/// By convention `status` is `"success"` or `"error"`, but no validation is
/// performed: construction accepts any pair of strings and cannot fail, and
/// the value never changes after construction.
#[derive(Clone, Debug)]
pub struct ClientResponse {
    status: String,
    message: String,
}

impl ClientResponse {
    /// The status string this response was constructed with.
    pub closed spec fn spec_status(&self) -> Seq<char> {
        self.status@
    }

    /// The message string this response was constructed with.
    pub closed spec fn spec_message(&self) -> Seq<char> {
        self.message@
    }

    /// Builds the pair exactly as given: no transformation, no trimming, no
    /// case-folding of either field.
    pub fn new(status: &str, message: &str) -> (r: ClientResponse)
        ensures
            r.spec_status() == status@,
            r.spec_message() == message@,
    {
        ClientResponse { status: status.to_owned(), message: message.to_owned() }
    }

    /// Returns the status, unchanged.
    pub fn get_status(&self) -> (r: String)
        ensures
            r@ == self.spec_status(),
    {
        self.status.clone()
    }

    /// Returns the message, unchanged.
    pub fn get_message(&self) -> (r: String)
        ensures
            r@ == self.spec_message(),
    {
        self.message.clone()
    }
}

/// The accessors are faithful to the constructor: a response holding the
/// pair `(status, message)` reads back as exactly that pair, and any value a
/// read returns is that field of the pair, character for character.
pub proof fn lemma_response_accessors_faithful(
    r: ClientResponse,
    status: Seq<char>,
    message: Seq<char>,
    read_status: Seq<char>,
    read_message: Seq<char>,
)
    requires
        r.spec_status() == status,
        r.spec_message() == message,
        read_status == r.spec_status(),
        read_message == r.spec_message(),
    ensures
        read_status == status,
        read_message == message,
{
}

/// Encoding a pair into a response and decoding its two fields is lossless
/// and idempotent: every read of the same constructed value yields the same
/// strings, so any two reads agree with each other.
pub proof fn lemma_response_round_trip(
    r: ClientResponse,
    first_status: Seq<char>,
    first_message: Seq<char>,
    second_status: Seq<char>,
    second_message: Seq<char>,
)
    requires
        first_status == r.spec_status(),
        first_message == r.spec_message(),
        second_status == r.spec_status(),
        second_message == r.spec_message(),
    ensures
        first_status == second_status,
        first_message == second_message,
{
}

} // verus!

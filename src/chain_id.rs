use core::str::FromStr;
use vstd::prelude::*;

verus! {

/// The revision number that a chain identifier carries, or `None` where the text is not
/// accepted as a chain identifier.
pub uninterp spec fn chain_id_revision(id: Seq<char>) -> Option<u64>;

/// Whether a chain identifier's length lies within `[min, max]`, as ibc measures it.
pub uninterp spec fn chain_id_length_ok(id: Seq<char>, min: u64, max: u64) -> bool;

/// Relies on ibc's `ChainId::from_str`: whether the text is a chain identifier, and the
/// revision number it carries (the number after the last `-`, or zero).
#[verifier::external_body]
fn parse_revision(id: &str) -> (r: Option<u64>)
    ensures
        r == chain_id_revision(id@),
{
    ibc_core::host::types::identifiers::ChainId::from_str(id).ok().map(|c| c.revision_number())
}

/// Relies on ibc's `ChainId::validate_length`, applied to the identifier read back by
/// `ChainId::from_str`; a text that is no identifier has no acceptable length.
#[verifier::external_body]
fn length_within(id: &str, min: u64, max: u64) -> (r: bool)
    ensures
        r == chain_id_length_ok(id@, min, max),
{
    match ibc_core::host::types::identifiers::ChainId::from_str(id) {
        Ok(c) => c.validate_length(min, max).is_ok(),
        Err(_) => false,
    }
}

/// The identifier of the counterparty chain, with the revision number that it encodes.
#[derive(Clone, Debug, PartialEq, Eq)]
pub struct ChainId {
    id: String,
    revision_number: u64,
}

impl ChainId {
    pub closed spec fn view(&self) -> Seq<char> {
        self.id@
    }

    pub closed spec fn revision(&self) -> u64 {
        self.revision_number
    }

    pub open spec fn wf(&self) -> bool {
        chain_id_revision(self.view()) == Some(self.revision())
    }

    /// Reads a chain identifier; fails where ibc does not accept the text as one.
    pub fn new(id: &str) -> (r: Result<ChainId, ()>)
        ensures
            r is Ok <==> chain_id_revision(id@) is Some,
            r matches Ok(c) ==> c.view() == id@ && c.wf(),
    {
        match parse_revision(id) {
            Some(revision_number) => Ok(ChainId { id: id.to_owned(), revision_number }),
            None => Err(()),
        }
    }

    pub fn as_str(&self) -> (r: &str)
        ensures
            r@ == self.view(),
    {
        self.id.as_str()
    }

    pub fn revision_number(&self) -> (r: u64)
        ensures
            r == self.revision(),
    {
        self.revision_number
    }

    /// The identifier's text.
    pub fn into_string(self) -> (r: String)
        ensures
            r@ == self.view(),
    {
        self.id
    }

    /// Whether the identifier's length lies within `[min, max]`.
    pub fn validate_length(&self, min: u64, max: u64) -> (r: bool)
        ensures
            r == chain_id_length_ok(self.view(), min, max),
    {
        length_within(self.id.as_str(), min, max)
    }
}

} // verus!

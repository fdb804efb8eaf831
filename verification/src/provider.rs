//! The thesaurus provider: the address of a lookup, and what to make of
//! its reply.

use crate::json::{JsonNode, JsonValue};
use crate::outcome::{settle, settled_status, OutcomeEnvelope, STATUS_OK, STATUS_SERVER_ERROR};
use crate::reason::Reason;
use crate::synonyms::{
    entry_meta, flattened, is_group_list, is_payload, is_well_formed, normalize_synonyms,
    normalized, words_model,
};
use vstd::prelude::*;
use vstd::string::StringExecFns;

verus! {

/// A lookup: the search term of one request. The term is never empty.
#[derive(Debug, PartialEq, Eq)]
pub struct LookupRequest {
    term: String,
}

impl View for LookupRequest {
    type V = Seq<char>;

    closed spec fn view(&self) -> Seq<char> {
        self.term@
    }
}

impl LookupRequest {
    #[verifier::type_invariant]
    spec fn term_given(&self) -> bool {
        self.term@.len() > 0
    }

    /// The lookup of `term`. The empty term is refused.
    pub fn new(term: String) -> (request: Result<LookupRequest, Reason>)
        ensures
            match request {
                Ok(lookup) => lookup@ == term@ && term@.len() > 0,
                Err(reason) => reason == Reason::EmptyTerm && term@.len() == 0,
            },
    {
        if term.as_str().is_empty() {
            Err(Reason::EmptyTerm)
        } else {
            Ok(LookupRequest { term })
        }
    }

    /// The search term.
    pub fn term(&self) -> (term: &str)
        ensures
            term@ == self@,
            term@.len() > 0,
    {
        proof {
            use_type_invariant(self);
        }
        self.term.as_str()
    }
}

/// The address that answers a lookup of `term` for the holder of
/// `credential`.
pub open spec fn thesaurus_address(term: Seq<char>, credential: Seq<char>) -> Seq<char> {
    "https://www.dictionaryapi.com/api/v3/references/thesaurus/json/"@ + term + "?key="@
        + credential
}

/// Builds the address to fetch for a lookup. Term and credential are put in
/// as they are.
pub fn thesaurus_url(request: &LookupRequest, credential: &str) -> (url: String)
    ensures
        url@ == thesaurus_address(request@, credential@),
{
    let mut url = String::from_str(
        "https://www.dictionaryapi.com/api/v3/references/thesaurus/json/",
    );
    url.append(request.term());
    url.append("?key=");
    url.append(credential);
    url
}

/// Tells whether a status that the provider answered with counts as success.
pub open spec fn is_success_status(status: u16) -> bool {
    200 <= status < 300
}

/// Decides whether a status that the provider answered with counts as
/// success.
pub fn status_is_success(status: u16) -> (success: bool)
    ensures
        success == is_success_status(status),
{
    200 <= status && status < 300
}

/// What came of the one call to the provider.
#[derive(Debug)]
pub enum ProviderReply {
    /// The provider could not be reached.
    Unreachable,
    /// The provider answered. `document` is the decoded body; none if the
    /// body could not be decoded.
    Answered { status: u16, document: Option<JsonNode> },
}

/// The synonyms that a reply stands for, or the reason it stands for none.
pub open spec fn reply_synonyms(reply: ProviderReply) -> Result<Seq<Seq<char>>, Reason> {
    match reply {
        ProviderReply::Unreachable => Err(Reason::ConnectionFailed),
        ProviderReply::Answered { status, document } => if !is_success_status(status) {
            Err(Reason::BadStatus)
        } else {
            match document {
                None => Err(Reason::UndecodableBody),
                Some(payload) => normalized(payload@),
            }
        },
    }
}

/// Reduces the provider's reply to synonyms. A reply that is missing, bears
/// a status outside the success range, or has no decodable body fails as a
/// transport failure; a decoded document is normalized.
pub fn synonyms_from_reply(reply: &ProviderReply) -> (result: Result<Vec<String>, Reason>)
    ensures
        words_model(result) == reply_synonyms(*reply),
{
    match reply {
        ProviderReply::Unreachable => Err(Reason::ConnectionFailed),
        ProviderReply::Answered { status, document } => {
            if !status_is_success(*status) {
                Err(Reason::BadStatus)
            } else {
                match document {
                    None => Err(Reason::UndecodableBody),
                    Some(payload) => normalize_synonyms(payload),
                }
            }
        },
    }
}

/// The status that a reply of the provider is answered with.
pub open spec fn reply_status(reply: ProviderReply) -> u16 {
    settled_status(reply_synonyms(reply))
}

/// The synonyms that a reply of the provider is answered with.
pub open spec fn reply_words(reply: ProviderReply) -> Seq<Seq<char>> {
    match reply_synonyms(reply) {
        Ok(words) => words,
        Err(_) => Seq::empty(),
    }
}

/// The reply to a synonyms request: all synonyms with the success status,
/// or the empty list with the server-error status. The provider is not
/// asked again, whatever it replied.
pub fn synonyms_outcome(reply: &ProviderReply) -> (envelope: OutcomeEnvelope<Vec<String>>)
    ensures
        envelope.status() == reply_status(*reply),
        envelope.body().deep_view() == reply_words(*reply),
{
    let envelope = settle(synonyms_from_reply(reply), Vec::new());
    assert(reply_synonyms(*reply) is Err ==> envelope.body().deep_view() =~= Seq::<
        Seq<char>,
    >::empty());
    envelope
}

/// A well-formed document in a successful reply is answered with the
/// success status and with every string of its synonym groups, in the order
/// of the document.
pub proof fn well_formed_document_is_flattened(status: u16, payload: JsonNode)
    requires
        is_success_status(status),
        is_well_formed(payload@),
    ensures
        normalized(payload@) == Ok::<Seq<Seq<char>>, Reason>(
            flattened(entry_meta(payload@->Array_0[0])["syns"@]),
        ),
        reply_status(ProviderReply::Answered { status, document: Some(payload) }) == STATUS_OK,
        reply_words(ProviderReply::Answered { status, document: Some(payload) }) == flattened(
            entry_meta(payload@->Array_0[0])["syns"@],
        ),
{
}

/// A document that departs from the expected shape anywhere is answered
/// with the server-error status and the empty list: an empty top-level
/// sequence, metadata without synonyms, a synonyms field or a group that is
/// no array, a word that is no string. Nothing of it is extracted.
pub proof fn departure_yields_nothing(status: u16, payload: JsonNode)
    requires
        ({
            ||| payload@ matches JsonValue::Array(entries) && entries.len() == 0
            ||| is_payload(payload@) && !entry_meta(payload@->Array_0[0]).contains_key("syns"@)
            ||| is_payload(payload@) && entry_meta(payload@->Array_0[0]).contains_key("syns"@)
                && !is_group_list(entry_meta(payload@->Array_0[0])["syns"@])
        }),
    ensures
        normalized(payload@) is Err,
        reply_status(ProviderReply::Answered { status, document: Some(payload) })
            == STATUS_SERVER_ERROR,
        reply_words(ProviderReply::Answered { status, document: Some(payload) }) == Seq::<
            Seq<char>,
        >::empty(),
{
}

/// A reply is answered with the success status exactly when synonyms were
/// extracted from it, and under the server-error status the list is empty,
/// whatever went wrong.
pub proof fn reply_status_agrees_with_words(reply: ProviderReply)
    ensures
        reply_status(reply) == STATUS_OK || reply_status(reply) == STATUS_SERVER_ERROR,
        reply_status(reply) == STATUS_OK <==> reply_synonyms(reply) is Ok,
        reply_status(reply) == STATUS_OK ==> reply_synonyms(reply) == Ok::<
            Seq<Seq<char>>,
            Reason,
        >(reply_words(reply)),
        reply_status(reply) == STATUS_SERVER_ERROR ==> reply_words(reply) == Seq::<
            Seq<char>,
        >::empty(),
{
}

/// An unreachable provider is answered with the server-error status and the
/// empty list.
pub proof fn unreachable_provider_yields_nothing()
    ensures
        reply_status(ProviderReply::Unreachable) == STATUS_SERVER_ERROR,
        reply_words(ProviderReply::Unreachable) == Seq::<Seq<char>>::empty(),
{
}

} // verus!

//! The routes of the service: which method and path reach which endpoint,
//! and the name of the parameter that carries its input.

use crate::outcome::{OutcomeEnvelope, STATUS_OK};
use vstd::prelude::*;

verus! {

/// The request methods that the service answers.
#[derive(Debug, Clone, Copy, PartialEq, Eq, Structural)]
pub enum Method {
    Get,
    Post,
}

/// The endpoints of the service.
#[derive(Debug, Clone, Copy, PartialEq, Eq, Structural)]
pub enum Endpoint {
    /// The static greeting.
    Greeting,
    /// Synonyms of a word.
    Synonyms,
    /// Summary of a text.
    Summary,
    /// Sentiment of a text.
    Sentiment,
    /// Keywords of a text.
    Extract,
    /// The request's text, sent back.
    Echo,
}

/// The method that an endpoint answers.
pub open spec fn method_of(endpoint: Endpoint) -> Method {
    match endpoint {
        Endpoint::Echo => Method::Post,
        _ => Method::Get,
    }
}

/// The path that an endpoint is bound to.
pub open spec fn path_of(endpoint: Endpoint) -> Seq<char> {
    match endpoint {
        Endpoint::Greeting => "/"@,
        Endpoint::Synonyms => "/api/v1/synonyms"@,
        Endpoint::Summary => "/api/v1/summary"@,
        Endpoint::Sentiment => "/api/v1/sentiment"@,
        Endpoint::Extract => "/api/v1/extract"@,
        Endpoint::Echo => "/echo"@,
    }
}

/// The query parameter that carries an endpoint's input, where it has one.
pub open spec fn parameter_of(endpoint: Endpoint) -> Option<Seq<char>> {
    match endpoint {
        Endpoint::Synonyms => Some("word"@),
        Endpoint::Summary | Endpoint::Sentiment | Endpoint::Extract => Some("txt"@),
        Endpoint::Greeting | Endpoint::Echo => None,
    }
}

/// The endpoint that a method and a path reach, if any.
pub open spec fn routed(method: Method, path: Seq<char>) -> Option<Endpoint> {
    if method == Method::Post {
        if path == path_of(Endpoint::Echo) {
            Some(Endpoint::Echo)
        } else {
            None
        }
    } else if path == path_of(Endpoint::Greeting) {
        Some(Endpoint::Greeting)
    } else if path == path_of(Endpoint::Synonyms) {
        Some(Endpoint::Synonyms)
    } else if path == path_of(Endpoint::Summary) {
        Some(Endpoint::Summary)
    } else if path == path_of(Endpoint::Sentiment) {
        Some(Endpoint::Sentiment)
    } else if path == path_of(Endpoint::Extract) {
        Some(Endpoint::Extract)
    } else {
        None
    }
}

impl Endpoint {
    /// The method that the endpoint answers.
    pub fn method(&self) -> (method: Method)
        ensures
            method == method_of(*self),
    {
        match self {
            Endpoint::Echo => Method::Post,
            _ => Method::Get,
        }
    }

    /// The path that the endpoint is bound to.
    pub fn path(&self) -> (path: &'static str)
        ensures
            path@ == path_of(*self),
    {
        match self {
            Endpoint::Greeting => "/",
            Endpoint::Synonyms => "/api/v1/synonyms",
            Endpoint::Summary => "/api/v1/summary",
            Endpoint::Sentiment => "/api/v1/sentiment",
            Endpoint::Extract => "/api/v1/extract",
            Endpoint::Echo => "/echo",
        }
    }

    /// The query parameter that carries the endpoint's input, where it has
    /// one.
    pub fn parameter(&self) -> (name: Option<&'static str>)
        ensures
            name is Some <==> parameter_of(*self) is Some,
            name matches Some(text) ==> parameter_of(*self) == Some(text@),
    {
        match self {
            Endpoint::Synonyms => Some("word"),
            Endpoint::Summary | Endpoint::Sentiment | Endpoint::Extract => Some("txt"),
            Endpoint::Greeting | Endpoint::Echo => None,
        }
    }
}

/// Tells whether `path` is the path of `endpoint`.
fn bound_to(path: &String, endpoint: Endpoint) -> (bound: bool)
    ensures
        bound == (path@ == path_of(endpoint)),
{
    let own: String = endpoint.path().to_owned();
    *path == own
}

/// Finds the endpoint that a method and a path reach.
pub fn resolve(method: Method, path: &str) -> (endpoint: Option<Endpoint>)
    ensures
        endpoint == routed(method, path@),
{
    let path: String = path.to_owned();
    match method {
        Method::Post => {
            if bound_to(&path, Endpoint::Echo) {
                Some(Endpoint::Echo)
            } else {
                None
            }
        },
        Method::Get => {
            if bound_to(&path, Endpoint::Greeting) {
                Some(Endpoint::Greeting)
            } else if bound_to(&path, Endpoint::Synonyms) {
                Some(Endpoint::Synonyms)
            } else if bound_to(&path, Endpoint::Summary) {
                Some(Endpoint::Summary)
            } else if bound_to(&path, Endpoint::Sentiment) {
                Some(Endpoint::Sentiment)
            } else if bound_to(&path, Endpoint::Extract) {
                Some(Endpoint::Extract)
            } else {
                None
            }
        },
    }
}

/// No two endpoints share a path.
pub proof fn paths_are_distinct(first: Endpoint, second: Endpoint)
    requires
        first != second,
    ensures
        path_of(first) != path_of(second),
{
    reveal_strlit("/");
    reveal_strlit("/api/v1/synonyms");
    reveal_strlit("/api/v1/summary");
    reveal_strlit("/api/v1/sentiment");
    reveal_strlit("/api/v1/extract");
    reveal_strlit("/echo");
    assert("/"@.len() == 1);
    assert("/api/v1/synonyms"@.len() == 16);
    assert("/api/v1/summary"@.len() == 15);
    assert("/api/v1/sentiment"@.len() == 17);
    assert("/api/v1/extract"@.len() == 15);
    assert("/echo"@.len() == 5);
    assert("/api/v1/summary"@[8] == 's');
    assert("/api/v1/extract"@[8] == 'e');
}

/// Every endpoint is reached by its own method and path, and by no other
/// endpoint's.
pub proof fn every_endpoint_is_reached(endpoint: Endpoint)
    ensures
        routed(method_of(endpoint), path_of(endpoint)) == Some(endpoint),
{
    assert forall|other: Endpoint| other != endpoint implies path_of(other) != path_of(
        endpoint,
    ) by {
        paths_are_distinct(other, endpoint);
    }
}

/// The reply to an echo request: the text as it came, with the success
/// status.
pub fn echo(text: String) -> (envelope: OutcomeEnvelope<String>)
    ensures
        envelope.status() == STATUS_OK,
        envelope.body() == text,
{
    OutcomeEnvelope::success(text)
}

} // verus!

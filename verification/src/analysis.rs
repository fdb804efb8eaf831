//! Outcomes of the text-analysis endpoints: summary, sentiment, keywords.
//!
//! An inference model answers a batch of inputs with one prediction per
//! input. A request carries a single input, so its answer is the first
//! prediction of the batch; a batch without predictions counts as a failed
//! prediction. Scores are carried along untouched, whatever their type.

use crate::outcome::{settle, OutcomeEnvelope, STATUS_OK, STATUS_SERVER_ERROR};
use crate::reason::Reason;
use vstd::prelude::*;

verus! {

/// Whether a text reads as favourable or not.
#[derive(Debug, Clone, Copy, PartialEq, Eq, Structural)]
pub enum Polarity {
    Positive,
    Negative,
}

/// The sentiment of a text: a polarity and the model's confidence in it.
#[derive(Debug, PartialEq)]
pub struct Sentiment<S> {
    pub polarity: Polarity,
    pub score: S,
}

/// A keyword of a text and the weight the model gave it.
#[derive(Debug, PartialEq)]
pub struct Keyword<S> {
    pub text: String,
    pub score: S,
}

/// The answer to a single input: the first prediction of the batch.
pub open spec fn first_of<T>(prediction: Result<Vec<T>, Reason>) -> Result<T, Reason> {
    match prediction {
        Ok(batch) => if batch@.len() > 0 {
            Ok(batch@[0])
        } else {
            Err(Reason::PredictionFailed)
        },
        Err(reason) => Err(reason),
    }
}

/// Picks the answer to a single input out of what the model returned.
pub fn first_prediction<T>(prediction: Result<Vec<T>, Reason>) -> (first: Result<T, Reason>)
    ensures
        first == first_of(prediction),
{
    match prediction {
        Ok(batch) => {
            let mut batch = batch;
            if batch.len() > 0 {
                Ok(batch.remove(0))
            } else {
                Err(Reason::PredictionFailed)
            }
        },
        Err(reason) => Err(reason),
    }
}

/// The reply to a summary request: the summary of the input with the
/// success status, or the empty string with the server-error status.
pub fn summary_outcome(prediction: Result<Vec<String>, Reason>) -> (envelope: OutcomeEnvelope<
    String,
>)
    ensures
        match first_of(prediction) {
            Ok(summary) => envelope.status() == STATUS_OK && envelope.body() == summary,
            Err(_) => envelope.status() == STATUS_SERVER_ERROR && envelope.body()@
                == Seq::<char>::empty(),
        },
{
    settle(first_prediction(prediction), String::new())
}

/// The body of a failed sentiment request: negative polarity with the score
/// that the caller names as zero.
pub open spec fn sentiment_placeholder<S>(zero: S) -> Sentiment<S> {
    Sentiment { polarity: Polarity::Negative, score: zero }
}

/// The reply to a sentiment request: the sentiment of the input with the
/// success status, or the placeholder with the server-error status.
pub fn sentiment_outcome<S>(prediction: Result<Vec<Sentiment<S>>, Reason>, zero: S) -> (envelope:
    OutcomeEnvelope<Sentiment<S>>)
    ensures
        match first_of(prediction) {
            Ok(sentiment) => envelope.status() == STATUS_OK && envelope.body() == sentiment,
            Err(_) => envelope.status() == STATUS_SERVER_ERROR && envelope.body()
                == sentiment_placeholder(zero),
        },
{
    settle(first_prediction(prediction), Sentiment { polarity: Polarity::Negative, score: zero })
}

/// The reply to a keyword request: the keywords of the input, in the model's
/// order, with the success status, or no keywords with the server-error
/// status.
pub fn keywords_outcome<S>(prediction: Result<Vec<Vec<Keyword<S>>>, Reason>) -> (envelope:
    OutcomeEnvelope<Vec<Keyword<S>>>)
    ensures
        match first_of(prediction) {
            Ok(keywords) => envelope.status() == STATUS_OK && envelope.body() == keywords,
            Err(_) => envelope.status() == STATUS_SERVER_ERROR && envelope.body()@
                == Seq::<Keyword<S>>::empty(),
        },
{
    settle(first_prediction(prediction), Vec::new())
}

} // verus!

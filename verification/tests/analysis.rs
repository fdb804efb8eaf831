use wordser::analysis::{
    first_prediction, keywords_outcome, sentiment_outcome, summary_outcome, Keyword, Polarity,
    Sentiment,
};
use wordser::reason::Reason;

fn keyword(text: &str, score: f32) -> Keyword<f32> {
    Keyword { text: text.to_string(), score }
}

#[test]
fn first_prediction_is_the_first_of_the_batch() {
    assert_eq!(first_prediction(Ok(vec![7u32, 8, 9])), Ok(7));
    assert_eq!(first_prediction(Ok(vec![7u32])), Ok(7));
}

#[test]
fn empty_batch_is_a_failed_prediction() {
    assert_eq!(first_prediction(Ok(Vec::<u32>::new())), Err(Reason::PredictionFailed));
}

#[test]
fn first_prediction_passes_a_failure_on() {
    assert_eq!(
        first_prediction(Err::<Vec<u32>, Reason>(Reason::ModelUnavailable)),
        Err(Reason::ModelUnavailable)
    );
}

#[test]
fn summary_is_answered_with_200() {
    let envelope = summary_outcome(Ok(vec!["short text".to_string(), "other".to_string()]));
    assert_eq!(envelope.into_parts(), (200, "short text".to_string()));
}

#[test]
fn empty_summary_of_the_model_is_still_a_success() {
    let envelope = summary_outcome(Ok(vec![String::new()]));
    assert_eq!(envelope.into_parts(), (200, String::new()));
}

#[test]
fn failed_summary_is_answered_with_500_and_the_empty_string() {
    for reason in [Reason::ModelUnavailable, Reason::PredictionFailed] {
        let envelope = summary_outcome(Err(reason));
        assert_eq!(envelope.into_parts(), (500, String::new()));
    }
    let envelope = summary_outcome(Ok(Vec::new()));
    assert_eq!(envelope.into_parts(), (500, String::new()));
}

#[test]
fn sentiment_is_answered_with_200() {
    let found = Sentiment { polarity: Polarity::Positive, score: 0.98f64 };
    let envelope = sentiment_outcome(Ok(vec![found]), 0.0f64);
    assert_eq!(envelope.status(), 200);
    assert_eq!(envelope.body(), &Sentiment { polarity: Polarity::Positive, score: 0.98f64 });
}

#[test]
fn failed_sentiment_is_answered_with_500_and_the_placeholder() {
    let placeholder = Sentiment { polarity: Polarity::Negative, score: 0.0f64 };
    let envelope = sentiment_outcome(Err(Reason::ModelUnavailable), 0.0f64);
    assert_eq!(envelope.status(), 500);
    assert_eq!(envelope.body(), &placeholder);
    let envelope = sentiment_outcome(Ok(Vec::new()), 0.0f64);
    assert_eq!(envelope.status(), 500);
    assert_eq!(envelope.body(), &placeholder);
}

#[test]
fn keywords_are_answered_with_200_in_the_order_of_the_model() {
    let batch = vec![
        vec![keyword("rust", 0.5), keyword("verus", 0.75), keyword("proof", 0.25)],
        vec![keyword("other", 1.0)],
    ];
    let envelope = keywords_outcome(Ok(batch));
    assert_eq!(envelope.status(), 200);
    assert_eq!(
        envelope.body(),
        &vec![keyword("rust", 0.5), keyword("verus", 0.75), keyword("proof", 0.25)]
    );
}

#[test]
fn text_without_keywords_is_still_a_success() {
    let envelope = keywords_outcome(Ok(vec![Vec::<Keyword<f32>>::new()]));
    assert_eq!(envelope.status(), 200);
    assert!(envelope.body().is_empty());
}

#[test]
fn failed_keywords_are_answered_with_500_and_no_keywords() {
    let envelope = keywords_outcome(Err::<Vec<Vec<Keyword<f32>>>, Reason>(Reason::PredictionFailed));
    assert_eq!(envelope.status(), 500);
    assert!(envelope.body().is_empty());
    let envelope = keywords_outcome(Ok(Vec::<Vec<Keyword<f32>>>::new()));
    assert_eq!(envelope.status(), 500);
    assert!(envelope.body().is_empty());
}

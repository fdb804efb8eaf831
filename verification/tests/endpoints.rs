use wordser::endpoints::{echo, resolve, Endpoint, Method};

const ALL_ENDPOINTS: [Endpoint; 6] = [
    Endpoint::Greeting,
    Endpoint::Synonyms,
    Endpoint::Summary,
    Endpoint::Sentiment,
    Endpoint::Extract,
    Endpoint::Echo,
];

#[test]
fn echo_sends_the_text_back_with_200() {
    let envelope = echo("hi".to_string());
    assert_eq!(envelope.status(), 200);
    assert_eq!(envelope.body(), "hi");
    assert_eq!(echo(String::new()).into_parts(), (200, String::new()));
}

#[test]
fn paths_are_those_of_the_service() {
    assert_eq!(Endpoint::Greeting.path(), "/");
    assert_eq!(Endpoint::Synonyms.path(), "/api/v1/synonyms");
    assert_eq!(Endpoint::Summary.path(), "/api/v1/summary");
    assert_eq!(Endpoint::Sentiment.path(), "/api/v1/sentiment");
    assert_eq!(Endpoint::Extract.path(), "/api/v1/extract");
    assert_eq!(Endpoint::Echo.path(), "/echo");
}

#[test]
fn only_echo_is_posted_to() {
    for endpoint in ALL_ENDPOINTS {
        let expected = if endpoint == Endpoint::Echo { Method::Post } else { Method::Get };
        assert_eq!(endpoint.method(), expected);
    }
}

#[test]
fn parameters_are_word_and_txt() {
    assert_eq!(Endpoint::Synonyms.parameter(), Some("word"));
    assert_eq!(Endpoint::Summary.parameter(), Some("txt"));
    assert_eq!(Endpoint::Sentiment.parameter(), Some("txt"));
    assert_eq!(Endpoint::Extract.parameter(), Some("txt"));
    assert_eq!(Endpoint::Greeting.parameter(), None);
    assert_eq!(Endpoint::Echo.parameter(), None);
}

#[test]
fn every_endpoint_is_reached_by_its_method_and_path() {
    for endpoint in ALL_ENDPOINTS {
        assert_eq!(resolve(endpoint.method(), endpoint.path()), Some(endpoint));
    }
}

#[test]
fn wrong_method_reaches_nothing() {
    for endpoint in ALL_ENDPOINTS {
        let other = if endpoint.method() == Method::Get { Method::Post } else { Method::Get };
        assert_eq!(resolve(other, endpoint.path()), None);
    }
}

#[test]
fn unknown_path_reaches_nothing() {
    for path in ["", "/api", "/api/v1/synonyms/", "/API/V1/SYNONYMS", "/echo/", "echo", "//"] {
        assert_eq!(resolve(Method::Get, path), None);
        assert_eq!(resolve(Method::Post, path), None);
    }
}

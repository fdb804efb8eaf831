use wordser::json::{JsonNode, JsonObject};

fn json_text(word: &str) -> JsonNode {
    JsonNode::Text(word.to_string())
}

#[test]
fn new_object_has_no_members() {
    let object = JsonObject::new();
    assert!(object.get("syns").is_none());
    assert!(object.get("").is_none());
}

#[test]
fn object_returns_what_was_inserted() {
    let mut object = JsonObject::new();
    object.insert("id".to_string(), json_text("happy"));
    object.insert("stems".to_string(), JsonNode::Array(vec![json_text("happy")]));
    assert_eq!(object.get("id").and_then(|node| node.as_str()), Some("happy"));
    assert_eq!(object.get("stems").and_then(|node| node.as_array()).map(|items| items.len()), Some(1));
    assert!(object.get("syns").is_none());
}

#[test]
fn insert_replaces_the_value_of_a_key() {
    let mut object = JsonObject::new();
    object.insert("id".to_string(), json_text("happy"));
    object.insert("uuid".to_string(), json_text("1"));
    object.insert("id".to_string(), json_text("glad"));
    assert_eq!(object.get("id").and_then(|node| node.as_str()), Some("glad"));
    assert_eq!(object.get("uuid").and_then(|node| node.as_str()), Some("1"));
}

#[test]
fn keys_are_compared_exactly() {
    let mut object = JsonObject::new();
    object.insert("syns".to_string(), JsonNode::Null);
    assert!(object.get("syns").is_some());
    assert!(object.get("Syns").is_none());
    assert!(object.get("syn").is_none());
    assert!(object.get("syns ").is_none());
}

#[test]
fn as_array_answers_for_arrays_only() {
    assert_eq!(JsonNode::Array(vec![]).as_array().map(|items| items.len()), Some(0));
    let pair = JsonNode::Array(vec![JsonNode::Null, JsonNode::Bool(true)]);
    assert_eq!(pair.as_array().map(|items| items.len()), Some(2));
    assert!(JsonNode::Null.as_array().is_none());
    assert!(json_text("[]").as_array().is_none());
    assert!(JsonNode::Object(JsonObject::new()).as_array().is_none());
}

#[test]
fn as_str_answers_for_strings_only() {
    assert_eq!(json_text("glad").as_str(), Some("glad"));
    assert_eq!(json_text("").as_str(), Some(""));
    assert!(JsonNode::Number("12".to_string()).as_str().is_none());
    assert!(JsonNode::Bool(false).as_str().is_none());
    assert!(JsonNode::Array(vec![json_text("glad")]).as_str().is_none());
}

#[test]
fn as_object_answers_for_objects_only() {
    let mut members = JsonObject::new();
    members.insert("meta".to_string(), JsonNode::Null);
    let node = JsonNode::Object(members);
    assert!(node.as_object().is_some());
    assert!(node.as_object().and_then(|object| object.get("meta")).is_some());
    assert!(JsonNode::Array(vec![]).as_object().is_none());
    assert!(json_text("{}").as_object().is_none());
}

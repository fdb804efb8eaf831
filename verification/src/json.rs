//! The untyped document tree that a provider hands back, and its
//! mathematical model.

use vstd::prelude::*;

verus! {

/// Mathematical model of a JSON document: scalars, ordered arrays, and
/// objects that map each key to one value.
pub enum JsonValue {
    Null,
    Bool(bool),
    /// A number, as decimal text.
    Number(Seq<char>),
    Text(Seq<char>),
    Array(Seq<JsonValue>),
    Object(Map<Seq<char>, JsonValue>),
}

/// An object of a document: a mapping from keys to values.
#[derive(Debug)]
pub struct JsonObject {
    members: Vec<(String, JsonNode)>,
}

/// A node of a document as the provider returned it.
#[derive(Debug)]
pub enum JsonNode {
    Null,
    Bool(bool),
    /// A number, as decimal text.
    Number(String),
    Text(String),
    Array(Vec<JsonNode>),
    Object(JsonObject),
}

/// The models of a run of nodes, in order.
pub open spec fn models(nodes: Seq<JsonNode>) -> Seq<JsonValue> {
    Seq::new(nodes.len(), |i: int| nodes[i]@)
}

impl View for JsonNode {
    type V = JsonValue;

    open spec fn view(&self) -> JsonValue
        decreases self,
    {
        match self {
            JsonNode::Null => JsonValue::Null,
            JsonNode::Bool(b) => JsonValue::Bool(*b),
            JsonNode::Number(digits) => JsonValue::Number(digits@),
            JsonNode::Text(text) => JsonValue::Text(text@),
            JsonNode::Array(items) => JsonValue::Array(
                Seq::new(
                    items@.len(),
                    |i: int|
                        if 0 <= i < items@.len() {
                            items@[i].view()
                        } else {
                            JsonValue::Null
                        },
                ),
            ),
            JsonNode::Object(object) => JsonValue::Object(object.view()),
        }
    }
}

impl View for JsonObject {
    type V = Map<Seq<char>, JsonValue>;

    closed spec fn view(&self) -> Map<Seq<char>, JsonValue>
        decreases self,
    {
        Map::new(
            |key: Seq<char>| exists|i: int| self.keyed(key, i),
            |key: Seq<char>|
                {
                    let i = choose|i: int| self.first_keyed(key, i);
                    if self.first_keyed(key, i) {
                        self.members@[i].1.view()
                    } else {
                        JsonValue::Null
                    }
                },
        )
    }
}

impl JsonObject {
    /// Member `i` exists and carries `key`.
    closed spec fn keyed(&self, key: Seq<char>, i: int) -> bool {
        0 <= i < self.members@.len() && self.members@[i].0@ == key
    }

    /// Member `i` carries `key`, and no member before it does.
    closed spec fn first_keyed(&self, key: Seq<char>, i: int) -> bool {
        self.keyed(key, i) && forall|j: int| 0 <= j < i ==> !self.keyed(key, j)
    }

    /// Among the members that carry a key, one comes first.
    proof fn lemma_first_exists(&self, key: Seq<char>, i: int)
        requires
            self.keyed(key, i),
        ensures
            exists|f: int| self.first_keyed(key, f),
        decreases i,
    {
        if exists|j: int| 0 <= j < i && self.keyed(key, j) {
            let j = choose|j: int| 0 <= j < i && self.keyed(key, j);
            self.lemma_first_exists(key, j);
        } else {
            assert(self.first_keyed(key, i));
        }
    }

    /// The value of a key is that of the first member that carries it.
    proof fn lemma_value_at_first(&self, key: Seq<char>, i: int)
        requires
            self.first_keyed(key, i),
        ensures
            self@.contains_key(key),
            self@[key] == self.members@[i].1@,
    {
        let c = choose|c: int| self.first_keyed(key, c);
        assert(self.keyed(key, c));
        assert(self.keyed(key, i));
        assert(c == i);
    }

    /// An object without members.
    pub fn new() -> (object: JsonObject)
        ensures
            object@ == Map::<Seq<char>, JsonValue>::empty(),
    {
        let object = JsonObject { members: Vec::new() };
        assert(object@ =~= Map::<Seq<char>, JsonValue>::empty());
        object
    }

    /// Position of the first member that carries `key`.
    fn position(&self, key: &String) -> (at: Option<usize>)
        ensures
            match at {
                Some(i) => self.first_keyed(key@, i as int),
                None => forall|i: int| !self.keyed(key@, i),
            },
    {
        let mut i: usize = 0;
        while i < self.members.len()
            invariant
                i <= self.members@.len(),
                forall|k: int| 0 <= k < i ==> !self.keyed(key@, k),
            decreases self.members@.len() - i,
        {
            if self.members[i].0 == *key {
                return Some(i);
            }
            i += 1;
        }
        None
    }

    /// The value that `key` maps to, if the object has that key.
    pub fn get(&self, key: &str) -> (found: Option<&JsonNode>)
        ensures
            found is Some <==> self@.contains_key(key@),
            found matches Some(node) ==> node@ == self@[key@],
    {
        let wanted: String = key.to_owned();
        match self.position(&wanted) {
            Some(i) => {
                proof {
                    self.lemma_value_at_first(key@, i as int);
                }
                Some(&self.members[i].1)
            },
            None => None,
        }
    }

    /// Maps `key` to `value`, in place of what it mapped to before.
    pub fn insert(&mut self, key: String, value: JsonNode)
        ensures
            final(self)@ == old(self)@.insert(key@, value@),
    {
        let ghost n = self.members@.len() as int;
        let at = self.position(&key);
        match at {
            Some(i) => {
                self.members.set(i, (key, value));
            },
            None => {
                self.members.push((key, value));
            },
        }
        proof {
            let slot = if at is Some { at->Some_0 as int } else { n };
            assert forall|k: Seq<char>, c: int| self.keyed(k, c) <==> (old(self).keyed(k, c) || (c
                == slot && k == key@)) by {
                if 0 <= c < n && c != slot {
                    assert(self.members@[c] == old(self).members@[c]);
                }
            }
            assert(self.first_keyed(key@, slot));
            self.lemma_value_at_first(key@, slot);
            assert forall|k: Seq<char>| #[trigger]
                self@.contains_key(k) && k != key@ implies self@[k] == old(self)@[k] by {
                let w = choose|w: int| self.keyed(k, w);
                self.lemma_first_exists(k, w);
                let f = choose|f: int| self.first_keyed(k, f);
                assert(self.keyed(k, f));
                assert(old(self).first_keyed(k, f)) by {
                    assert forall|j: int| 0 <= j < f implies !old(self).keyed(k, j) by {
                        assert(!self.keyed(k, j));
                    }
                }
                self.lemma_value_at_first(k, f);
                old(self).lemma_value_at_first(k, f);
                assert(self.members@[f] == old(self).members@[f]);
            }
            assert(self@ =~= old(self)@.insert(key@, value@));
        }
    }
}

impl JsonNode {
    /// The items of an array; nothing for any other node.
    pub fn as_array(&self) -> (items: Option<&Vec<JsonNode>>)
        ensures
            items is Some <==> self@ is Array,
            items matches Some(nodes) ==> self@ == JsonValue::Array(models(nodes@)),
    {
        match self {
            JsonNode::Array(items) => {
                assert(self@->Array_0 =~= models(items@));
                Some(items)
            },
            _ => None,
        }
    }

    /// The text of a string; nothing for any other node.
    pub fn as_str(&self) -> (text: Option<&str>)
        ensures
            text is Some <==> self@ is Text,
            text matches Some(chars) ==> self@ == JsonValue::Text(chars@),
    {
        match self {
            JsonNode::Text(text) => Some(text.as_str()),
            _ => None,
        }
    }

    /// The members of an object; nothing for any other node.
    pub fn as_object(&self) -> (members: Option<&JsonObject>)
        ensures
            members is Some <==> self@ is Object,
            members matches Some(object) ==> self@ == JsonValue::Object(object@),
    {
        match self {
            JsonNode::Object(object) => Some(object),
            _ => None,
        }
    }
}

} // verus!

//! JSON documents as the PowerShell layer prints them (`ConvertTo-Json`).

use vstd::prelude::*;

verus! {

/// A JSON value held by the library.  Numbers are kept in their textual form,
/// object members in the order the parser lists them (one member per key).
#[derive(Debug)]
pub enum JsonNode {
    Null,
    Bool(bool),
    Number(String),
    Text(String),
    Array(Vec<JsonNode>),
    Object(Vec<(String, JsonNode)>),
}

/// The mathematical value of a JSON document.
pub enum JsonValue {
    Null,
    Bool(bool),
    Number(Seq<char>),
    Text(Seq<char>),
    Array(Seq<JsonValue>),
    Object(Seq<(Seq<char>, JsonValue)>),
}

impl JsonNode {
    /// The value this node denotes.
    pub open spec fn value(self) -> JsonValue
        decreases self,
    {
        match self {
            JsonNode::Null => JsonValue::Null,
            JsonNode::Bool(b) => JsonValue::Bool(b),
            JsonNode::Number(t) => JsonValue::Number(t@),
            JsonNode::Text(t) => JsonValue::Text(t@),
            JsonNode::Array(items) => JsonValue::Array(
                Seq::new(
                    items@.len(),
                    |i: int|
                        if 0 <= i < items@.len() {
                            proof {
                                broadcast use vstd::std_specs::vec::axiom_vec_decreases_to_view;

                                assert(decreases_to!(items => items@));
                                assert(decreases_to!(items@ => items@[i]));
                            }
                            items@[i].value()
                        } else {
                            JsonValue::Null
                        },
                ),
            ),
            JsonNode::Object(members) => JsonValue::Object(
                Seq::new(
                    members@.len(),
                    |i: int|
                        if 0 <= i < members@.len() {
                            proof {
                                broadcast use vstd::std_specs::vec::axiom_vec_decreases_to_view;

                                assert(decreases_to!(members => members@));
                                assert(decreases_to!(members@ => members@[i]));
                                assert(decreases_to!(members@[i] => members@[i].1));
                            }
                            (members@[i].0@, members@[i].1.value())
                        } else {
                            (Seq::empty(), JsonValue::Null)
                        },
                ),
            ),
        }
    }
}

/// The member named `key` among `members`: the first one with that name.
pub open spec fn member_lookup(members: Seq<(Seq<char>, JsonValue)>, key: Seq<char>) -> Option<
    JsonValue,
>
    decreases members.len(),
{
    if members.len() == 0 {
        None
    } else if members[0].0 == key {
        Some(members[0].1)
    } else {
        member_lookup(members.drop_first(), key)
    }
}

/// `v[key]` as serde_json indexes a value: the member of an object, or `null`
/// when `v` is no object or has no such member.
pub open spec fn field_of(v: JsonValue, key: Seq<char>) -> JsonValue {
    match v {
        JsonValue::Object(members) => match member_lookup(members, key) {
            Some(x) => x,
            None => JsonValue::Null,
        },
        _ => JsonValue::Null,
    }
}

/// The text of a string value.
pub open spec fn text_of(v: JsonValue) -> Option<Seq<char>> {
    match v {
        JsonValue::Text(t) => Some(t),
        _ => None,
    }
}

/// The text of a string value, or `default` for any other value.
pub open spec fn text_or(v: JsonValue, default: Seq<char>) -> Seq<char> {
    match v {
        JsonValue::Text(t) => t,
        _ => default,
    }
}

/// The truth value of a boolean value.
pub open spec fn bool_of(v: JsonValue) -> Option<bool> {
    match v {
        JsonValue::Bool(b) => Some(b),
        _ => None,
    }
}

/// The views of an optional string.
pub open spec fn opt_text(o: Option<String>) -> Option<Seq<char>> {
    match o {
        Some(s) => Some(s@),
        None => None,
    }
}

impl JsonNode {
    /// A node denoting the same value.
    #[verifier::loop_isolation(false)]
    pub fn duplicate(&self) -> (r: JsonNode)
        ensures
            r.value() == self.value(),
        decreases self,
    {
        match self {
            JsonNode::Null => JsonNode::Null,
            JsonNode::Bool(b) => JsonNode::Bool(*b),
            JsonNode::Number(t) => JsonNode::Number(t.clone()),
            JsonNode::Text(t) => JsonNode::Text(t.clone()),
            JsonNode::Array(items) => {
                let mut out: Vec<JsonNode> = Vec::new();
                let n = items.len();
                for i in 0..n
                    invariant
                        n == items@.len(),
                        out@.len() == i,
                        forall|j: int| 0 <= j < i ==> (#[trigger] out@[j]).value() == items@[j].value(),
                {
                    proof {
                        broadcast use vstd::std_specs::vec::axiom_vec_decreases_to_view;

                        assert(decreases_to!(items => items@));
                        assert(decreases_to!(items@ => items@[i as int]));
                    }
                    let x = items[i].duplicate();
                    out.push(x);
                }
                let r = JsonNode::Array(out);
                assert(r.value() == self.value()) by {
                    if let JsonValue::Array(a) = r.value() {
                        if let JsonValue::Array(b) = self.value() {
                            assert(a =~= b);
                        }
                    }
                }
                r
            },
            JsonNode::Object(members) => {
                let mut out: Vec<(String, JsonNode)> = Vec::new();
                let n = members.len();
                for i in 0..n
                    invariant
                        n == members@.len(),
                        out@.len() == i,
                        forall|j: int|
                            0 <= j < i ==> (#[trigger] out@[j]).0@ == members@[j].0@ && out@[j].1.value()
                                == members@[j].1.value(),
                {
                    proof {
                        broadcast use vstd::std_specs::vec::axiom_vec_decreases_to_view;

                        assert(decreases_to!(members => members@));
                        assert(decreases_to!(members@ => members@[i as int]));
                        assert(decreases_to!(members@[i as int] => members@[i as int].1));
                    }
                    let k = members[i].0.clone();
                    let x = members[i].1.duplicate();
                    out.push((k, x));
                }
                let r = JsonNode::Object(out);
                assert(r.value() == self.value()) by {
                    if let JsonValue::Object(a) = r.value() {
                        if let JsonValue::Object(b) = self.value() {
                            assert(a =~= b);
                        }
                    }
                }
                r
            },
        }
    }
}

/// The member `key` of `node`, when `node` is an object that has one.
pub fn field<'a>(node: &'a JsonNode, key: &str) -> (r: Option<&'a JsonNode>)
    ensures
        match r {
            Some(x) => x.value() == field_of(node.value(), key@),
            None => field_of(node.value(), key@) == JsonValue::Null,
        },
{
    match node {
        JsonNode::Object(members) => {
            let ghost vals = match node.value() {
                JsonValue::Object(m) => m,
                _ => Seq::empty(),
            };
            let n = members.len();
            assert(vals.subrange(0, n as int) =~= vals);
            let mut i: usize = 0;
            while i < n
                invariant
                    n == members@.len(),
                    vals.len() == n,
                    node.value() == JsonValue::Object(vals),
                    forall|j: int| 0 <= j < n ==> #[trigger] vals[j] == (members@[j].0@, members@[j].1.value()),
                    i <= n,
                    member_lookup(vals, key@) == member_lookup(vals.subrange(i as int, n as int), key@),
                decreases n - i,
            {
                let ghost rest = vals.subrange(i as int, n as int);
                assert(rest[0] == vals[i as int]);
                if crate::text::text_eq(members[i].0.as_str(), key) {
                    return Some(&members[i].1);
                }
                assert(rest.drop_first() =~= vals.subrange(i + 1, n as int));
                i = i + 1;
            }
            None
        },
        _ => None,
    }
}

/// The text of the string member `key` of `node`, if it is one.
pub fn text_field(node: &JsonNode, key: &str) -> (r: Option<String>)
    ensures
        opt_text(r) == text_of(field_of(node.value(), key@)),
{
    match field(node, key) {
        Some(JsonNode::Text(t)) => Some(t.clone()),
        _ => None,
    }
}

/// The text of the string member `key` of `node`, or `default` when there is none.
pub fn text_field_or(node: &JsonNode, key: &str, default: &str) -> (r: String)
    ensures
        r@ == text_or(field_of(node.value(), key@), default@),
{
    match field(node, key) {
        Some(JsonNode::Text(t)) => t.clone(),
        _ => String::from_str(default),
    }
}

/// The truth value of the boolean member `key` of `node`, if it is one.
pub fn bool_field(node: &JsonNode, key: &str) -> (r: Option<bool>)
    ensures
        r == bool_of(field_of(node.value(), key@)),
{
    match field(node, key) {
        Some(JsonNode::Bool(b)) => Some(*b),
        _ => None,
    }
}

/// What a text member reads as: its text when it is one, the default otherwise.
pub proof fn lemma_text_member(v: JsonValue, key: Seq<char>, default: Seq<char>)
    ensures
        text_of(field_of(v, key)) matches Some(t) ==> text_or(field_of(v, key), default) == t,
        text_of(field_of(v, key)) is None ==> text_or(field_of(v, key), default) == default,
        text_or(field_of(v, key), default) != default ==> text_of(field_of(v, key)) == Some(
            text_or(field_of(v, key), default),
        ),
        default == ""@ ==> (text_or(field_of(v, key), default).len() > 0 ==> text_of(field_of(v, key))
            == Some(text_or(field_of(v, key), default))),
{
    reveal_strlit("");
    match field_of(v, key) {
        JsonValue::Text(t) => {},
        _ => {},
    }
}

/// What `serde_json::from_str::<serde_json::Value>` makes of a text: the document's
/// value (numbers as the text `serde_json` prints for them, object members as its
/// map lists them), or nothing when the text is not one JSON document.
pub uninterp spec fn parsed_json(text: Seq<char>) -> Option<JsonValue>;

#[verifier::external_type_specification]
#[verifier::external_body]
pub struct ExSerdeJsonValue(serde_json::Value);

/// Moves a `serde_json::Value` into a node, variant by variant (numbers by their
/// `Display` text).  It states nothing; `parse_json` states what the pair gives.
#[verifier::external_body]
fn node_from_value(v: serde_json::Value) -> JsonNode {
    match v {
        serde_json::Value::Null => JsonNode::Null,
        serde_json::Value::Bool(b) => JsonNode::Bool(b),
        serde_json::Value::Number(n) => JsonNode::Number(n.to_string()),
        serde_json::Value::String(s) => JsonNode::Text(s),
        serde_json::Value::Array(a) => JsonNode::Array(a.into_iter().map(node_from_value).collect()),
        serde_json::Value::Object(m) => JsonNode::Object(
            m.into_iter().map(|(k, x)| (k, node_from_value(x))).collect(),
        ),
    }
}

/// `serde_json::from_str::<serde_json::Value>`: the claim is that the node returned
/// denotes the value named `parsed_json` of the text, and that it returns nothing
/// exactly when that name is nothing.
#[verifier::external_body]
pub(crate) fn parse_json(text: &str) -> (r: Option<JsonNode>)
    ensures
        match r {
            Some(n) => parsed_json(text@) == Some(n.value()),
            None => parsed_json(text@) is None,
        },
{
    serde_json::from_str::<serde_json::Value>(text).ok().map(node_from_value)
}

/// Looking a key up finds the first member with that key, and finds nothing
/// exactly when no member has it.
pub proof fn law_member_lookup(members: Seq<(Seq<char>, JsonValue)>, key: Seq<char>)
    ensures
        member_lookup(members, key) matches Some(x) ==> exists|i: int|
            0 <= i < members.len() && #[trigger] members[i] == (key, x) && forall|j: int|
                0 <= j < i ==> members[j].0 != key,
        member_lookup(members, key) is None <==> forall|i: int| 0 <= i < members.len() ==> #[trigger] members[i].0
            != key,
    decreases members.len(),
{
    if members.len() > 0 {
        law_member_lookup(members.drop_first(), key);
        if members[0].0 != key {
            if member_lookup(members, key) is Some {
                let x = member_lookup(members, key)->0;
                let i = choose|i: int|
                    0 <= i < members.drop_first().len() && #[trigger] members.drop_first()[i] == (key, x) && forall|j: int|
                        0 <= j < i ==> members.drop_first()[j].0 != key;
                assert(members[i + 1] == members.drop_first()[i]);
                assert forall|j: int| 0 <= j < i + 1 implies members[j].0 != key by {
                    if j > 0 {
                        assert(members[j] == members.drop_first()[j - 1]);
                    }
                }
            }
            assert((forall|i: int| 0 <= i < members.len() ==> #[trigger] members[i].0 != key) <==> (forall|i: int|
                0 <= i < members.drop_first().len() ==> #[trigger] members.drop_first()[i].0 != key)) by {
                if forall|i: int| 0 <= i < members.drop_first().len() ==> #[trigger] members.drop_first()[i].0 != key {
                    assert forall|i: int| 0 <= i < members.len() implies #[trigger] members[i].0 != key by {
                        if i > 0 {
                            assert(members[i] == members.drop_first()[i - 1]);
                        }
                    }
                }
                if forall|i: int| 0 <= i < members.len() ==> #[trigger] members[i].0 != key {
                    assert forall|i: int| 0 <= i < members.drop_first().len() implies #[trigger] members.drop_first()[i].0
                        != key by {
                        assert(members.drop_first()[i] == members[i + 1]);
                    }
                }
            }
        } else {
            assert(members[0] == (key, members[0].1));
        }
    }
}

/// `v[key]` is the first member named `key` of an object, and `null` for an
/// object without one or for any other value.
pub proof fn law_field_of(v: JsonValue, key: Seq<char>, i: int)
    ensures
        (v matches JsonValue::Object(ms) && 0 <= i < ms.len() && ms[i].0 == key && (forall|j: int|
            0 <= j < i ==> ms[j].0 != key)) ==> field_of(v, key) == v->Object_0[i].1,
        !(v is Object) ==> field_of(v, key) == JsonValue::Null,
        (v matches JsonValue::Object(ms) && forall|j: int| 0 <= j < ms.len() ==> ms[j].0 != key) ==> field_of(v, key)
            == JsonValue::Null,
{
    if let JsonValue::Object(ms) = v {
        law_member_lookup(ms, key);
        if 0 <= i < ms.len() && ms[i].0 == key && (forall|j: int| 0 <= j < i ==> ms[j].0 != key) {
            let x = member_lookup(ms, key)->0;
            let k = choose|k: int|
                0 <= k < ms.len() && #[trigger] ms[k] == (key, x) && forall|j: int| 0 <= j < k ==> ms[j].0 != key;
            assert(k == i) by {
                if k < i {
                    assert(ms[k].0 == key);
                }
                if i < k {
                    assert(ms[i].0 != key);
                }
            }
        }
    }
}

} // verus!

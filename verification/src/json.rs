//! JSON documents as plain values, parsed and printed by `serde_json`.
use vstd::prelude::*;

verus! {

#[verifier::external_type_specification]
#[verifier::external_body]
pub struct ExJsonNumber(serde_json::Number);

/// A JSON document. Object members keep the order in which `serde_json` yields them.
#[derive(Debug)]
pub enum JsonValue {
    Null,
    Bool(bool),
    Number(serde_json::Number),
    String(String),
    Array(Vec<JsonValue>),
    Object(Vec<(String, JsonValue)>),
}

/// The abstract form of a JSON document.
pub enum JsonView {
    Null,
    Bool(bool),
    Number(serde_json::Number),
    String(Seq<char>),
    Array(Seq<JsonView>),
    Object(Seq<(Seq<char>, JsonView)>),
}

/// The abstract form of a document.
pub open spec fn json_view(v: JsonValue) -> JsonView
    decreases v,
{
    match v {
        JsonValue::Null => JsonView::Null,
        JsonValue::Bool(b) => JsonView::Bool(b),
        JsonValue::Number(n) => JsonView::Number(n),
        JsonValue::String(s) => JsonView::String(s@),
        JsonValue::Array(items) => JsonView::Array(
            Seq::new(
                items@.len(),
                |i: int|
                    if 0 <= i < items@.len() {
                        json_view(items@[i])
                    } else {
                        JsonView::Null
                    },
            ),
        ),
        JsonValue::Object(members) => JsonView::Object(
            Seq::new(
                members@.len(),
                |i: int|
                    if 0 <= i < members@.len() {
                        (members@[i].0@, json_view(members@[i].1))
                    } else {
                        (Seq::empty(), JsonView::Null)
                    },
            ),
        ),
    }
}

impl View for JsonValue {
    type V = JsonView;

    open spec fn view(&self) -> JsonView {
        json_view(*self)
    }
}

/// The object members of a document view.
pub open spec fn members_view(members: Seq<(String, JsonValue)>) -> Seq<(Seq<char>, JsonView)> {
    Seq::new(members.len(), |i: int| (members[i].0@, members[i].1@))
}

/// An object document is seen as the list of its members' views.
pub proof fn lemma_object_view(members: Vec<(String, JsonValue)>)
    ensures
        JsonValue::Object(members)@ == JsonView::Object(members_view(members@)),
{
    let v = JsonValue::Object(members);
    assert(v@ is Object);
    assert(v@->Object_0 =~= members_view(members@));
}

/// An array document is seen as the list of its items' views.
pub proof fn lemma_array_view(items: Vec<JsonValue>)
    ensures
        JsonValue::Array(items)@ == JsonView::Array(items@.map_values(|v: JsonValue| v@)),
{
    let v = JsonValue::Array(items);
    assert(v@ is Array);
    assert(v@->Array_0 =~= items@.map_values(|x: JsonValue| x@));
}

/// What `serde_json::from_slice::<serde_json::Value>` makes of these bytes (`None`
/// where it reports an error).
pub uninterp spec fn json_parse_spec(bytes: Seq<u8>) -> Option<JsonView>;

/// What `serde_json::to_string` prints for this document, read as a `serde_json::Value`
/// (whose objects are printed sorted by key, one member per key).
pub uninterp spec fn json_text_spec(v: JsonView) -> Seq<char>;

/// Parses bytes as JSON with `serde_json::from_slice`; on failure, the text of
/// `serde_json`'s error (which nothing here constrains).
#[verifier::external_body]
pub(crate) fn json_parse(bytes: &[u8]) -> (r: Result<JsonValue, String>)
    ensures
        match r {
            Ok(v) => json_parse_spec(bytes@) == Some(v@),
            Err(_) => json_parse_spec(bytes@) is None,
        },
{
    match serde_json::from_slice::<serde_json::Value>(bytes) {
        Ok(v) => Ok(json_from_serde(v)),
        Err(e) => Err(e.to_string()),
    }
}

/// Prints a document as compact JSON text with `serde_json::to_string`, through a
/// `serde_json::Value`. A `Value` has only string keys and finite numbers, and is written
/// into a `Vec`, so printing it does not fail (the `Err` arm is never taken). Its objects are
/// `serde_json::Map`s, sorted by key, one member per key (the last given wins); which text
/// that gives is left to the name [`json_text_spec`].
#[verifier::external_body]
pub(crate) fn json_text(v: &JsonValue) -> (r: String)
    ensures
        r@ == json_text_spec(v@),
        vstd::utf8::encode_utf8(r@).len() <= usize::MAX,
{
    match serde_json::to_string(&json_to_serde(v)) {
        Ok(s) => s,
        Err(_) => String::new(),
    }
}

/// A document printed as compact JSON with its object members in their order: arrays and
/// objects written here (`[a,b]`, `{"k":v}`), keys and all other values as `serde_json`
/// prints them. This is how `serde_json` writes a struct, field after field.
pub open spec fn json_print(v: JsonView) -> Seq<char>
    decreases v,
{
    match v {
        JsonView::Array(items) => seq!['['] + print_items(items) + seq![']'],
        JsonView::Object(members) => seq!['{'] + print_members(members) + seq!['}'],
        _ => json_text_spec(v),
    }
}

/// Array items printed (see [`json_print`]) and joined with `,`.
pub open spec fn print_items(items: Seq<JsonView>) -> Seq<char>
    decreases items,
{
    if items.len() == 0 {
        Seq::empty()
    } else if items.len() == 1 {
        json_print(items[0])
    } else {
        print_items(items.drop_last()) + seq![','] + json_print(items.last())
    }
}

/// Object members printed as `"key":value` (see [`json_print`]) and joined with `,`.
pub open spec fn print_members(members: Seq<(Seq<char>, JsonView)>) -> Seq<char>
    decreases members,
{
    if members.len() == 0 {
        Seq::empty()
    } else if members.len() == 1 {
        json_text_spec(JsonView::String(members[0].0)) + seq![':'] + json_print(members[0].1)
    } else {
        print_members(members.drop_last()) + seq![','] + json_text_spec(
            JsonView::String(members.last().0),
        ) + seq![':'] + json_print(members.last().1)
    }
}

/// Array items are printed in their order: one item is printed alone, and the items of
/// `a` followed by those of `b` print as the items of `a`, a comma, and the items of `b`.
/// So the i-th item printed is the i-th item of the array.
pub proof fn lemma_items_in_order(x: JsonView, a: Seq<JsonView>, b: Seq<JsonView>)
    requires
        a.len() > 0,
        b.len() > 0,
    ensures
        print_items(seq![x]) == json_print(x),
        print_items(a + b) == print_items(a) + seq![','] + print_items(b),
    decreases b.len(),
{
    let ab = a + b;
    if b.len() == 1 {
        assert(ab.drop_last() =~= a);
        assert(ab.last() == b[0]);
    } else {
        lemma_items_in_order(x, a, b.drop_last());
        assert(ab.drop_last() =~= a + b.drop_last());
        assert(ab.last() == b.last());
        assert(print_items(ab) =~= print_items(a) + seq![','] + (print_items(b.drop_last()) + seq![',']
            + json_print(b.last())));
    }
}

/// Object members are printed in their order: one member is printed alone as
/// `"key":value`, and the members of `a` followed by those of `b` print as the members of
/// `a`, a comma, and the members of `b`.
pub proof fn lemma_members_in_order(
    k: Seq<char>,
    x: JsonView,
    a: Seq<(Seq<char>, JsonView)>,
    b: Seq<(Seq<char>, JsonView)>,
)
    requires
        a.len() > 0,
        b.len() > 0,
    ensures
        print_members(seq![(k, x)]) == json_text_spec(JsonView::String(k)) + seq![':'] + json_print(x),
        print_members(a + b) == print_members(a) + seq![','] + print_members(b),
    decreases b.len(),
{
    let ab = a + b;
    if b.len() == 1 {
        assert(ab.drop_last() =~= a);
        assert(ab.last() == b[0]);
    } else {
        lemma_members_in_order(k, x, a, b.drop_last());
        assert(ab.drop_last() =~= a + b.drop_last());
        assert(ab.last() == b.last());
        let m = b.last();
        assert(print_members(ab) =~= print_members(a) + seq![','] + (print_members(b.drop_last())
            + seq![','] + json_text_spec(JsonView::String(m.0)) + seq![':'] + json_print(m.1)));
    }
}

/// Appends the characters of `part` to `out`.
fn push_chars(out: &mut Vec<char>, part: &Vec<char>)
    ensures
        final(out)@ == old(out)@ + part@,
{
    let mut k: usize = 0;
    while k < part.len()
        invariant
            k <= part@.len(),
            out@ == old(out)@ + part@.take(k as int),
        decreases part.len() - k,
    {
        out.push(part[k]);
        assert(part@.take(k as int).push(part@[k as int]) =~= part@.take(k + 1));
        k = k + 1;
    }
    assert(part@.take(part@.len() as int) =~= part@);
}

/// Prints a document with its object members in their order (see [`json_print`]).
#[verifier::loop_isolation(false)]
fn print_ordered(v: &JsonValue) -> (r: Vec<char>)
    ensures
        r@ == json_print(v@),
    decreases v,
{
    match v {
        JsonValue::Array(items) => {
            proof {
                lemma_array_view(*items);
            }
            let ghost all = v@->Array_0;
            let mut out: Vec<char> = Vec::new();
            let mut i: usize = 0;
            assert(all.take(0) =~= Seq::<JsonView>::empty());
            while i < items.len()
                invariant
                    i <= items.len(),
                    all == items@.map_values(|x: JsonValue| x@),
                    out@ == print_items(all.take(i as int)),
                decreases items.len() - i,
            {
                proof {
                    assert(decreases_to!(*v => (*v)->Array_0));
                    assert(decreases_to!((*v)->Array_0 => (*v)->Array_0@));
                    assert(decreases_to!(items => items@));
                    assert(decreases_to!(items@ => items@[i as int]));
                }
                let part = print_ordered(&items[i]);
                if i > 0 {
                    out.push(',');
                }
                push_chars(&mut out, &part);
                proof {
                    let t = all.take(i + 1);
                    assert(t.drop_last() =~= all.take(i as int));
                    assert(t.last() == items@[i as int]@);
                    if i == 0 {
                        assert(t[0] == t.last());
                    }
                }
                i = i + 1;
            }
            assert(all.take(items@.len() as int) =~= all);
            let mut r: Vec<char> = Vec::new();
            r.push('[');
            push_chars(&mut r, &out);
            r.push(']');
            r
        },
        JsonValue::Object(members) => {
            proof {
                lemma_object_view(*members);
            }
            let ghost all = v@->Object_0;
            let mut out: Vec<char> = Vec::new();
            let mut i: usize = 0;
            assert(all.take(0) =~= Seq::<(Seq<char>, JsonView)>::empty());
            while i < members.len()
                invariant
                    i <= members.len(),
                    all == members_view(members@),
                    out@ == print_members(all.take(i as int)),
                decreases members.len() - i,
            {
                proof {
                    assert(decreases_to!(*v => (*v)->Object_0));
                    assert(decreases_to!((*v)->Object_0 => (*v)->Object_0@));
                    assert(decreases_to!(members => members@));
                    assert(decreases_to!(members@ => members@[i as int]));
                    assert(decreases_to!(members@[i as int] => members@[i as int].1));
                }
                let key = json_text(&JsonValue::String(members[i].0.clone()));
                let value = print_ordered(&members[i].1);
                if i > 0 {
                    out.push(',');
                }
                crate::text::push_str_chars(&mut out, key.as_str());
                out.push(':');
                push_chars(&mut out, &value);
                proof {
                    let t = all.take(i + 1);
                    assert(t.drop_last() =~= all.take(i as int));
                    assert(t.last() == (members@[i as int].0@, members@[i as int].1@));
                    if i == 0 {
                        assert(t[0] == t.last());
                        assert(out@ =~= key@ + seq![':'] + value@);
                    } else {
                        assert(out@ =~= print_members(all.take(i as int)) + seq![','] + key@ + seq![':']
                            + value@);
                    }
                }
                i = i + 1;
            }
            assert(all.take(members@.len() as int) =~= all);
            let mut r: Vec<char> = Vec::new();
            r.push('{');
            push_chars(&mut r, &out);
            r.push('}');
            r
        },
        _ => {
            let t = json_text(v);
            crate::text::chars_of(t.as_str())
        },
    }
}

impl JsonValue {
    /// Parses a document from JSON bytes; on failure, `serde_json`'s message.
    pub fn from_json_bytes(bytes: &[u8]) -> (r: Result<JsonValue, String>)
        ensures
            match r {
                Ok(v) => json_parse_spec(bytes@) == Some(v@),
                Err(_) => json_parse_spec(bytes@) is None,
            },
    {
        json_parse(bytes)
    }

    /// The document as compact JSON text, printed by `serde_json` (objects sorted by key).
    pub fn to_json_text(&self) -> (r: String)
        ensures
            r@ == json_text_spec(self@),
    {
        json_text(self)
    }

    /// The document as compact JSON text with object members in their order (see
    /// [`json_print`]).
    pub fn to_ordered_json_text(&self) -> (r: String)
        ensures
            r@ == json_print(self@),
    {
        let v = print_ordered(self);
        crate::text::string_of(v.as_slice())
    }

    /// A copy of this document.
    #[verifier::loop_isolation(false)]
    pub fn duplicate(&self) -> (r: JsonValue)
        ensures
            r@ == self@,
        decreases self,
    {
        match self {
            JsonValue::Null => JsonValue::Null,
            JsonValue::Bool(b) => JsonValue::Bool(*b),
            JsonValue::Number(n) => JsonValue::Number(clone_number(n)),
            JsonValue::String(s) => JsonValue::String(s.clone()),
            JsonValue::Array(items) => {
                let mut out: Vec<JsonValue> = Vec::new();
                let mut i: usize = 0;
                while i < items.len()
                    invariant
                        i <= items.len(),
                        out@.len() == i,
                        forall|k: int| 0 <= k < i ==> #[trigger] out@[k]@ == items@[k]@,
                    decreases items.len() - i,
                {
                    proof {
                        assert(decreases_to!(*self => (*self)->Array_0));
                        assert(decreases_to!((*self)->Array_0 => (*self)->Array_0@));
                        assert(decreases_to!(items => items@));
                        assert(decreases_to!(items@ => items@[i as int]));
                    }
                    out.push(items[i].duplicate());
                    i = i + 1;
                }
                let r = JsonValue::Array(out);
                assert(r@ == self@) by {
                    let a = json_view(r)->Array_0;
                    let b = json_view(*self)->Array_0;
                    assert(a.len() == b.len());
                    assert forall|k: int| 0 <= k < a.len() implies a[k] == b[k] by {
                        assert(out@[k]@ == items@[k]@);
                    }
                    assert(a =~= b);
                }
                r
            },
            JsonValue::Object(members) => {
                let mut out: Vec<(String, JsonValue)> = Vec::new();
                let mut i: usize = 0;
                while i < members.len()
                    invariant
                        i <= members.len(),
                        out@.len() == i,
                        forall|k: int| 0 <= k < i ==> #[trigger] out@[k].0@ == members@[k].0@ && out@[k].1@ == members@[k].1@,
                    decreases members.len() - i,
                {
                    proof {
                        assert(decreases_to!(*self => (*self)->Object_0));
                        assert(decreases_to!((*self)->Object_0 => (*self)->Object_0@));
                        assert(decreases_to!(members => members@));
                        assert(decreases_to!(members@ => members@[i as int]));
                        assert(decreases_to!(members@[i as int] => members@[i as int].1));
                    }
                    let v = members[i].1.duplicate();
                    out.push((members[i].0.clone(), v));
                    i = i + 1;
                }
                let r = JsonValue::Object(out);
                assert(r@ == self@) by {
                    assert(json_view(r)->Object_0 =~= json_view(*self)->Object_0);
                }
                r
            },
        }
    }
}

/// `serde_json::Number::clone`.
#[verifier::external_body]
fn clone_number(n: &serde_json::Number) -> (r: serde_json::Number)
    ensures
        r == *n,
{
    n.clone()
}

#[verifier::external_type_specification]
#[verifier::external_body]
pub struct ExJsonDocument(serde_json::Value);

/// Converts a `serde_json::Value` into a [`JsonValue`], member for member.
#[verifier::external_body]
fn json_from_serde(v: serde_json::Value) -> JsonValue {
    match v {
        serde_json::Value::Null => JsonValue::Null,
        serde_json::Value::Bool(b) => JsonValue::Bool(b),
        serde_json::Value::Number(n) => JsonValue::Number(n),
        serde_json::Value::String(s) => JsonValue::String(s),
        serde_json::Value::Array(items) => JsonValue::Array(items.into_iter().map(json_from_serde).collect()),
        serde_json::Value::Object(map) => JsonValue::Object(map.into_iter().map(|(k, v)| (k, json_from_serde(v))).collect()),
    }
}

/// Converts a [`JsonValue`] into a `serde_json::Value`, member for member.
#[verifier::external_body]
fn json_to_serde(v: &JsonValue) -> serde_json::Value {
    match v {
        JsonValue::Null => serde_json::Value::Null,
        JsonValue::Bool(b) => serde_json::Value::Bool(*b),
        JsonValue::Number(n) => serde_json::Value::Number(n.clone()),
        JsonValue::String(s) => serde_json::Value::String(s.clone()),
        JsonValue::Array(items) => serde_json::Value::Array(items.iter().map(json_to_serde).collect()),
        JsonValue::Object(members) => serde_json::Value::Object(members.iter().map(|(k, v)| (k.clone(), json_to_serde(v))).collect()),
    }
}

} // verus!

//! The top level of a JSON object as the envelope rules read it: an ordered
//! list of members whose values are scalars, or nested JSON kept as text.

use vstd::prelude::*;

verus! {

/// The value of one member of a JSON object.
#[derive(Debug, PartialEq, Eq)]
pub enum Field {
    Null,
    Bool(bool),
    /// A string, unescaped.
    Text(String),
    /// A number, array or object, as JSON text; the envelope rules never look inside it.
    Raw(String),
}

/// The mathematical value of a [`Field`].
pub enum FieldModel {
    Null,
    Bool(bool),
    Text(Seq<char>),
    Raw(Seq<char>),
}

impl View for Field {
    type V = FieldModel;

    open spec fn view(&self) -> FieldModel {
        match self {
            Field::Null => FieldModel::Null,
            Field::Bool(b) => FieldModel::Bool(*b),
            Field::Text(s) => FieldModel::Text(s@),
            Field::Raw(s) => FieldModel::Raw(s@),
        }
    }
}

impl Field {
    /// A copy of the field.
    pub fn duplicate(&self) -> (r: Field)
        ensures
            r@ == self@,
    {
        match self {
            Field::Null => Field::Null,
            Field::Bool(b) => Field::Bool(*b),
            Field::Text(s) => Field::Text(s.clone()),
            Field::Raw(s) => Field::Raw(s.clone()),
        }
    }
}

/// The members of a JSON object, in order; a key may occur more than once, and
/// a lookup finds its first occurrence.
pub type Members = Seq<(Seq<char>, FieldModel)>;

/// A JSON object, member by member.
#[derive(Debug, PartialEq, Eq)]
pub struct JsonObject {
    pub members: Vec<(String, Field)>,
}

pub open spec fn member_view(m: (String, Field)) -> (Seq<char>, FieldModel) {
    (m.0@, m.1@)
}

impl View for JsonObject {
    type V = Members;

    open spec fn view(&self) -> Members {
        self.members@.map_values(|m: (String, Field)| member_view(m))
    }
}

/// The value of the first member named `key`.
pub open spec fn lookup(m: Members, key: Seq<char>) -> Option<FieldModel>
    decreases m.len(),
{
    if m.len() == 0 {
        None
    } else if m[0].0 == key {
        Some(m[0].1)
    } else {
        lookup(m.drop_first(), key)
    }
}

proof fn lemma_lookup_step(m: Members, i: int, key: Seq<char>)
    requires
        0 <= i < m.len(),
    ensures
        lookup(m.subrange(i, m.len() as int), key) == if m[i].0 == key {
            Some(m[i].1)
        } else {
            lookup(m.subrange(i + 1, m.len() as int), key)
        },
{
    let s = m.subrange(i, m.len() as int);
    assert(s.drop_first() =~= m.subrange(i + 1, m.len() as int));
}

/// Looking a key up in two lists written one after the other.
pub proof fn lemma_lookup_append(a: Members, b: Members, key: Seq<char>)
    ensures
        lookup(a + b, key) == if lookup(a, key) is Some {
            lookup(a, key)
        } else {
            lookup(b, key)
        },
    decreases a.len(),
{
    if a.len() > 0 {
        assert((a + b).drop_first() =~= a.drop_first() + b);
        lemma_lookup_append(a.drop_first(), b, key);
    } else {
        assert(a + b =~= b);
    }
}

/// How an optional string member reads: absent or null gives `Some(None)`, a
/// string gives `Some(Some(text))`, and any other value does not read (`None`).
pub open spec fn read_optional_text(f: Option<FieldModel>) -> Option<Option<Seq<char>>> {
    match f {
        None => Some(None),
        Some(FieldModel::Null) => Some(None),
        Some(FieldModel::Text(t)) => Some(Some(t)),
        _ => None,
    }
}

/// How a required string member reads: only a string reads.
pub open spec fn read_text(f: Option<FieldModel>) -> Option<Seq<char>> {
    match f {
        Some(FieldModel::Text(t)) => Some(t),
        _ => None,
    }
}

pub open spec fn opt_view(s: Option<String>) -> Option<Seq<char>> {
    match s {
        Some(t) => Some(t@),
        None => None,
    }
}

impl JsonObject {
    /// Reads the optional string member `key` (see [`read_optional_text`]).
    pub fn get_optional_text(&self, key: &str) -> (r: Option<Option<String>>)
        ensures
            r matches Some(t) ==> read_optional_text(lookup(self@, key@)) == Some(opt_view(t)),
            r is None ==> read_optional_text(lookup(self@, key@)) is None,
    {
        match self.get(key) {
            None => Some(None),
            Some(Field::Null) => Some(None),
            Some(Field::Text(t)) => Some(Some(t.clone())),
            Some(_) => None,
        }
    }

    /// Reads the required string member `key` (see [`read_text`]).
    pub fn get_text(&self, key: &str) -> (r: Option<String>)
        ensures
            opt_view(r) == read_text(lookup(self@, key@)),
    {
        match self.get(key) {
            Some(Field::Text(t)) => Some(t.clone()),
            _ => None,
        }
    }

    /// Reads JSON text whose value is an object; `None` for any other text.
    pub fn parse(text: &str) -> (r: Option<JsonObject>)
        ensures
            r matches Some(o) ==> parsed_object(text@) == Some(o@),
            r is None ==> parsed_object(text@) is None,
    {
        parse_object(text)
    }

    /// An object with no members.
    pub fn new() -> (r: JsonObject)
        ensures
            r@ == Seq::<(Seq<char>, FieldModel)>::empty(),
    {
        let r = JsonObject { members: Vec::new() };
        assert(r@ =~= Seq::<(Seq<char>, FieldModel)>::empty());
        r
    }

    /// Appends a member at the end.
    pub fn push(&mut self, key: String, value: Field)
        ensures
            final(self)@ == old(self)@.push((key@, value@)),
    {
        self.members.push((key, value));
        assert(self@ =~= old(self)@.push((key@, value@)));
    }

    /// The value of the first member named `key`, if any.
    pub fn get(&self, key: &str) -> (r: Option<&Field>)
        ensures
            r matches Some(f) ==> lookup(self@, key@) == Some(f@),
            r is None ==> lookup(self@, key@) is None,
    {
        let k = key.to_owned();
        let n = self.members.len();
        let mut i: usize = 0;
        assert(self@.subrange(0, n as int) =~= self@);
        while i < n
            invariant
                n == self.members@.len(),
                0 <= i <= n,
                k@ == key@,
                lookup(self@.subrange(i as int, n as int), key@) == lookup(self@, key@),
            decreases n - i,
        {
            proof {
                lemma_lookup_step(self@, i as int, key@);
            }
            if self.members[i].0 == k {
                return Some(&self.members[i].1);
            }
            i = i + 1;
        }
        None
    }
}


/// The JSON string literal that denotes `s`: quotes added and characters escaped.
pub uninterp spec fn json_quoted(s: Seq<char>) -> Seq<char>;

/// Relies on `serde_json::to_string` applied to a string slice: it writes the
/// JSON string literal for `s` and depends on `s` alone. (Writing into a
/// byte buffer cannot fail, so the default is never taken.)
#[verifier::external_body]
fn quote(s: &str) -> (r: String)
    ensures
        r@ == json_quoted(s@),
{
    serde_json::to_string(s).unwrap_or_default()
}

/// The members of a JSON object as the parser of `text` reads them, or `None`
/// when `text` is not JSON text whose value is an object.
pub uninterp spec fn parsed_object(text: Seq<char>) -> Option<Members>;

/// Relies on `serde_json::from_str` into a `serde_json::Value`: the outcome
/// depends on `text` alone. Members keep the parser's order; strings come out
/// unescaped, and nested values are written back as JSON text by `serde_json`.
#[verifier::external_body]
fn parse_object(text: &str) -> (r: Option<JsonObject>)
    ensures
        r matches Some(o) ==> parsed_object(text@) == Some(o@),
        r is None ==> parsed_object(text@) is None,
{
    match serde_json::from_str::<serde_json::Value>(text) {
        Ok(serde_json::Value::Object(map)) => Some(JsonObject {
            members: map.into_iter().map(|(key, value)| (key, match value {
                serde_json::Value::Null => Field::Null,
                serde_json::Value::Bool(b) => Field::Bool(b),
                serde_json::Value::String(s) => Field::Text(s),
                serde_json::Value::Number(n) => Field::Raw(n.to_string()),
                v @ serde_json::Value::Array(_) => Field::Raw(v.to_string()),
                v @ serde_json::Value::Object(_) => Field::Raw(v.to_string()),
            })).collect(),
        }),
        _ => None,
    }
}

pub open spec fn render_field(f: FieldModel) -> Seq<char> {
    match f {
        FieldModel::Null => seq!['n', 'u', 'l', 'l'],
        FieldModel::Bool(b) => if b {
            seq!['t', 'r', 'u', 'e']
        } else {
            seq!['f', 'a', 'l', 's', 'e']
        },
        FieldModel::Text(s) => json_quoted(s),
        FieldModel::Raw(t) => t,
    }
}

pub open spec fn render_member(m: (Seq<char>, FieldModel)) -> Seq<char> {
    json_quoted(m.0) + seq![':'] + render_field(m.1)
}

/// The members written one after the other, separated by commas.
pub open spec fn render_members(m: Members) -> Seq<char>
    decreases m.len(),
{
    if m.len() == 0 {
        Seq::empty()
    } else if m.len() == 1 {
        render_member(m[0])
    } else {
        render_members(m.drop_last()) + seq![','] + render_member(m.last())
    }
}

/// The JSON text of an object with members `m`.
pub open spec fn render_object(m: Members) -> Seq<char> {
    seq!['{'] + render_members(m) + seq!['}']
}

fn push_field(out: &mut String, f: &Field)
    ensures
        final(out)@ == old(out)@ + render_field(f@),
{
    proof {
        reveal_strlit("null");
        reveal_strlit("true");
        reveal_strlit("false");
    }
    match f {
        Field::Null => out.append("null"),
        Field::Bool(b) => if *b {
            out.append("true")
        } else {
            out.append("false")
        },
        Field::Text(s) => {
            let q = quote(s.as_str());
            out.append(q.as_str());
        },
        Field::Raw(t) => out.append(t.as_str()),
    }
}

impl JsonObject {
    /// The JSON text of the object.
    pub fn render(&self) -> (r: String)
        ensures
            r@ == render_object(self@),
    {
        proof {
            reveal_strlit("{");
            reveal_strlit("}");
            reveal_strlit(",");
            reveal_strlit(":");
        }
        let mut out = String::new();
        out.append("{");
        let n = self.members.len();
        let mut i: usize = 0;
        while i < n
            invariant
                n == self.members@.len(),
                0 <= i <= n,
                out@ == seq!['{'] + render_members(self@.subrange(0, i as int)),
            decreases n - i,
        {
            proof {
                reveal_strlit(",");
                reveal_strlit(":");
            }
            let ghost before = out@;
            if i > 0 {
                out.append(",");
            }
            let ghost mid = out@;
            let q = quote(self.members[i].0.as_str());
            assert(q@ == json_quoted(self.members@[i as int].0@));
            out.append(q.as_str());
            out.append(":");
            assert(out@ =~= mid + json_quoted(self.members@[i as int].0@) + seq![':']);
            push_field(&mut out, &self.members[i].1);
            assert(out@ =~= mid + json_quoted(self.members@[i as int].0@) + seq![':'] + render_field(self.members@[i as int].1@));
            proof {
                let m = self@.subrange(0, i + 1);
                assert(m.drop_last() =~= self@.subrange(0, i as int));
                assert(m.last() == member_view(self.members@[i as int]));
                assert(out@ =~= mid + render_member(m.last()));
                if i == 0 {
                    assert(out@ =~= before + render_member(m[0]));
                } else {
                    assert(out@ =~= before + seq![','] + render_member(m.last()));
                }
            }
            i = i + 1;
        }
        out.append("}");
        assert(self@.subrange(0, n as int) =~= self@);
        out
    }
}

} // verus!

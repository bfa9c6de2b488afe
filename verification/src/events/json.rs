//! JSON, as far as the sinks need it: what a parsed document shows of
//! itself, and values that are built to be written.

use vstd::prelude::*;
use vstd::string::StringExecFns;

verus! {

/// A member of a JSON object, as far as the sinks read it: its name, its
/// text, and its content if it is a string.
#[derive(Debug, Clone)]
pub struct JsonMember {
    pub key: String,
    /// The member's value as compact JSON text.
    pub text: String,
    /// The content of the value where the value is a string.
    pub string: Option<String>,
}

/// Mathematical content of a `JsonMember`.
pub struct JsonMemberView {
    pub key: Seq<char>,
    pub text: Seq<char>,
    pub string: Option<Seq<char>>,
}

impl View for JsonMember {
    type V = JsonMemberView;

    open spec fn view(&self) -> JsonMemberView {
        JsonMemberView {
            key: self.key@,
            text: self.text@,
            string: match self.string {
                Some(s) => Some(s@),
                None => None,
            },
        }
    }
}

/// The views of a run of members.
pub open spec fn members_view(members: Seq<JsonMember>) -> Seq<JsonMemberView> {
    members.map_values(|m: JsonMember| m@)
}

/// A parsed JSON document, as far as the sinks read it: its text, its
/// content if it is a string, and its members if it is an object.
#[derive(Debug, Clone)]
pub struct JsonDocument {
    /// The document as compact JSON text.
    pub text: String,
    /// The content of the document where it is a string.
    pub string: Option<String>,
    /// The members of the document where it is an object, in the order in
    /// which the parser keeps them.
    pub members: Option<Vec<JsonMember>>,
}

/// Mathematical content of a `JsonDocument`.
pub struct JsonDocumentView {
    pub text: Seq<char>,
    pub string: Option<Seq<char>>,
    pub members: Option<Seq<JsonMemberView>>,
}

impl View for JsonDocument {
    type V = JsonDocumentView;

    open spec fn view(&self) -> JsonDocumentView {
        JsonDocumentView {
            text: self.text@,
            string: match self.string {
                Some(s) => Some(s@),
                None => None,
            },
            members: match self.members {
                Some(m) => Some(members_view(m@)),
                None => None,
            },
        }
    }
}

/// The view of a document that may be missing.
pub open spec fn document_option_view(d: Option<JsonDocument>) -> Option<JsonDocumentView> {
    match d {
        Some(d) => Some(d@),
        None => None,
    }
}

/// The JSON document that `text` holds, if it holds one.
pub uninterp spec fn spec_parse_json(text: Seq<char>) -> Option<JsonDocumentView>;

/// `serde_json::from_str` to a `serde_json::Value`: the document that the
/// text holds, or nothing where the text is no JSON. Of the document are
/// kept its compact text (`Value::to_string`), its content if it is a string
/// (`Value::as_str`) and the same of each member if it is an object
/// (`Value::as_object`).
#[verifier::external_body]
pub(crate) fn parse_json(text: &str) -> (r: Option<JsonDocument>)
    ensures
        document_option_view(r) == spec_parse_json(text@),
{
    let value: serde_json::Value = serde_json::from_str(text).ok()?;
    let members = value.as_object().map(
        |o|
            o.iter().map(
                |(k, v)|
                    JsonMember {
                        key: k.clone(),
                        text: v.to_string(),
                        string: v.as_str().map(str::to_owned),
                    },
            ).collect(),
    );
    Some(JsonDocument { text: value.to_string(), string: value.as_str().map(str::to_owned), members })
}

/// The members of an object whose values are strings, each with its
/// content, in order.
pub open spec fn spec_string_members(members: Seq<JsonMemberView>) -> Seq<(Seq<char>, Seq<char>)>
    decreases members.len(),
{
    if members.len() == 0 {
        Seq::empty()
    } else {
        let head = spec_string_members(members.drop_last());
        match members.last().string {
            Some(s) => head.push((members.last().key, s)),
            None => head,
        }
    }
}

/// The content of the member called `name`, where there is such a member
/// and it is a string. Of several members of that name the first counts.
pub open spec fn spec_member_string(members: Seq<JsonMemberView>, name: Seq<char>) -> Option<
    Seq<char>,
>
    decreases members.len(),
{
    if members.len() == 0 {
        None
    } else if members.first().key == name {
        members.first().string
    } else {
        spec_member_string(members.drop_first(), name)
    }
}

/// The views of a run of pairs of texts.
pub open spec fn pairs_view(pairs: Seq<(String, String)>) -> Seq<(Seq<char>, Seq<char>)> {
    pairs.map_values(|p: (String, String)| (p.0@, p.1@))
}

/// A copy of a text that may be missing.
pub fn duplicate_text(text: &Option<String>) -> (r: Option<String>)
    ensures
        r matches Some(t) ==> text matches Some(s) && t@ == s@,
        r is None ==> text is None,
{
    match text {
        Some(s) => Some(s.clone()),
        None => None,
    }
}

impl JsonMember {
    /// A copy of the member.
    pub fn duplicate(&self) -> (m: Self)
        ensures
            m@ == self@,
    {
        JsonMember {
            key: self.key.clone(),
            text: self.text.clone(),
            string: duplicate_text(&self.string),
        }
    }
}

impl JsonDocument {
    /// A copy of the document.
    pub fn duplicate(&self) -> (d: Self)
        ensures
            d@ == self@,
    {
        let members = match &self.members {
            None => None,
            Some(members) => {
                let mut copy: Vec<JsonMember> = Vec::new();
                let mut i: usize = 0;
                while i < members.len()
                    invariant
                        i <= members@.len(),
                        copy@.len() == i,
                        forall|k: int| 0 <= k < i ==> (#[trigger] copy@[k])@ == members@[k]@,
                    decreases members@.len() - i,
                {
                    copy.push(members[i].duplicate());
                    i += 1;
                }
                assert(members_view(copy@) =~= members_view(members@));
                Some(copy)
            },
        };
        JsonDocument {
            text: self.text.clone(),
            string: duplicate_text(&self.string),
            members,
        }
    }

    /// The members whose values are strings, each with its content, in
    /// order; nothing where the document is no object.
    pub fn string_members(&self) -> (r: Option<Vec<(String, String)>>)
        ensures
            match r {
                Some(pairs) => self@.members matches Some(m) && pairs_view(pairs@)
                    == spec_string_members(m),
                None => self@.members is None,
            },
    {
        let members = match &self.members {
            Some(members) => members,
            None => {
                return None;
            },
        };
        let mut pairs: Vec<(String, String)> = Vec::new();
        let mut i: usize = 0;
        assert(pairs_view(pairs@) =~= spec_string_members(members_view(members@).take(0)));
        while i < members.len()
            invariant
                i <= members@.len(),
                self@.members == Some(members_view(members@)),
                pairs_view(pairs@) == spec_string_members(members_view(members@).take(i as int)),
            decreases members@.len() - i,
        {
            let ghost done = pairs@;
            assert(members_view(members@).take(i + 1).drop_last() =~= members_view(members@).take(
                i as int,
            ));
            match &members[i].string {
                Some(s) => {
                    let pair = (members[i].key.clone(), s.clone());
                    pairs.push(pair);
                    assert(pairs_view(pairs@) =~= pairs_view(done).push((pair.0@, pair.1@)));
                },
                None => {},
            }
            i += 1;
        }
        assert(members_view(members@).take(i as int) =~= members_view(members@));
        Some(pairs)
    }

    /// The content of the member called `name`, where the document is an
    /// object with such a member and the member is a string.
    pub fn member_string(&self, name: &str) -> (r: Option<&String>)
        ensures
            match r {
                Some(s) => self@.members matches Some(m) && spec_member_string(m, name@) == Some(
                    s@,
                ),
                None => self@.members matches Some(m) ==> spec_member_string(m, name@) is None,
            },
    {
        let members = match &self.members {
            Some(members) => members,
            None => {
                return None;
            },
        };
        let mut i: usize = 0;
        assert(members_view(members@).skip(0) =~= members_view(members@));
        while i < members.len()
            invariant
                i <= members@.len(),
                self@.members == Some(members_view(members@)),
                spec_member_string(members_view(members@), name@) == spec_member_string(
                    members_view(members@).skip(i as int),
                    name@,
                ),
            decreases members@.len() - i,
        {
            assert(members_view(members@).skip(i as int).first() == members@[i as int]@);
            assert(members_view(members@).skip(i as int).drop_first() =~= members_view(
                members@,
            ).skip(i + 1));
            if crate::utils::text::str_equal(members[i].key.as_str(), name) {
                return match &members[i].string {
                    Some(s) => Some(s),
                    None => None,
                };
            }
            i += 1;
        }
        None
    }
}

/// A JSON value that is built to be written. A number is a whole number.
#[derive(Debug)]
pub enum JsonValue {
    Null,
    Bool(bool),
    Number(i128),
    String(String),
    Array(Vec<JsonValue>),
    Object(Vec<(String, JsonValue)>),
}

/// Mathematical content of a `JsonValue`.
pub enum JsonView {
    Null,
    Bool(bool),
    Number(int),
    String(Seq<char>),
    Array(Seq<JsonView>),
    Object(Seq<(Seq<char>, JsonView)>),
}

/// The mathematical content of a JSON value.
pub open spec fn json_view(v: JsonValue) -> JsonView
    decreases v,
{
    match v {
        JsonValue::Null => JsonView::Null,
        JsonValue::Bool(b) => JsonView::Bool(b),
        JsonValue::Number(n) => JsonView::Number(n as int),
        JsonValue::String(s) => JsonView::String(s@),
        JsonValue::Array(items) => JsonView::Array(
            Seq::new(
                items@.len(),
                |i: int|
                    if 0 <= i < items@.len() {
                        json_view(items@[i])
                    } else {
                        JsonView::Null
                    },
            ),
        ),
        JsonValue::Object(members) => JsonView::Object(
            Seq::new(
                members@.len(),
                |i: int|
                    if 0 <= i < members@.len() {
                        (members@[i].0@, json_view(members@[i].1))
                    } else {
                        (Seq::empty(), JsonView::Null)
                    },
            ),
        ),
    }
}

impl View for JsonValue {
    type V = JsonView;

    open spec fn view(&self) -> JsonView {
        json_view(*self)
    }
}

/// The views of the members of an object under construction.
pub open spec fn object_view(members: Seq<(String, JsonValue)>) -> Seq<(Seq<char>, JsonView)> {
    Seq::new(
        members.len(),
        |i: int|
            if 0 <= i < members.len() {
                (members[i].0@, members[i].1@)
            } else {
                (Seq::empty(), JsonView::Null)
            },
    )
}

/// The views of the items of an array under construction.
pub open spec fn array_view(items: Seq<JsonValue>) -> Seq<JsonView> {
    Seq::new(
        items.len(),
        |i: int|
            if 0 <= i < items.len() {
                items[i]@
            } else {
                JsonView::Null
            },
    )
}

/// Appending a member appends its view.
pub proof fn lemma_object_push(members: Seq<(String, JsonValue)>, key: String, value: JsonValue)
    ensures
        object_view(members.push((key, value))) == object_view(members).push((key@, value@)),
        object_view(Seq::<(String, JsonValue)>::empty()) == Seq::<(Seq<char>, JsonView)>::empty(),
{
    assert(object_view(members.push((key, value))) =~= object_view(members).push(
        (key@, value@),
    ));
    assert(object_view(Seq::<(String, JsonValue)>::empty()) =~= Seq::<
        (Seq<char>, JsonView),
    >::empty());
}

/// Appending an item appends its view.
pub proof fn lemma_array_push(items: Seq<JsonValue>, item: JsonValue)
    ensures
        array_view(items.push(item)) == array_view(items).push(item@),
        array_view(Seq::<JsonValue>::empty()) == Seq::<JsonView>::empty(),
{
    assert(array_view(items.push(item)) =~= array_view(items).push(item@));
    assert(array_view(Seq::<JsonValue>::empty()) =~= Seq::<JsonView>::empty());
}

impl JsonValue {
    /// The object with the members `members`.
    pub fn object(members: Vec<(String, JsonValue)>) -> (v: Self)
        ensures
            v@ == JsonView::Object(object_view(members@)),
    {
        let v = JsonValue::Object(members);
        assert forall|i: int| 0 <= i < members@.len() implies (#[trigger] v@->Object_0[i])
            == object_view(members@)[i] by {
            assert(v@->Object_0[i] == (members@[i].0@, members@[i].1@));
        }
        assert(v@->Object_0 =~= object_view(members@));
        v
    }

    /// The array with the items `items`.
    pub fn array(items: Vec<JsonValue>) -> (v: Self)
        ensures
            v@ == JsonView::Array(array_view(items@)),
    {
        let v = JsonValue::Array(items);
        assert(v@->Array_0 =~= array_view(items@));
        v
    }
}

/// A member of a JSON object.
pub(crate) fn member(name: &str, value: JsonValue) -> (m: (String, JsonValue))
    ensures
        m.0@ == name@,
        m.1@ == value@,
{
    (String::from_str(name), value)
}

/// A whole number as JSON.
pub(crate) fn number(n: i128) -> (v: JsonValue)
    ensures
        v@ == JsonView::Number(n as int),
{
    JsonValue::Number(n)
}

/// A text as JSON.
pub(crate) fn text(s: String) -> (v: JsonValue)
    ensures
        v@ == JsonView::String(s@),
{
    JsonValue::String(s)
}

/// The object with the members `members`, in order.
pub(crate) fn object_of(members: Vec<(String, JsonValue)>) -> (v: JsonValue)
    ensures
        v@ == JsonView::Object(object_view(members@)),
{
    JsonValue::object(members)
}

/// Appends a member.
pub(crate) fn push_member(members: &mut Vec<(String, JsonValue)>, name: &str, value: JsonValue)
    ensures
        object_view(final(members)@) == object_view(old(members)@).push((name@, value@)),
{
    let m = member(name, value);
    proof {
        lemma_object_push(members@, m.0, m.1);
    }
    members.push(m);
}

/// No members.
pub(crate) fn no_members() -> (members: Vec<(String, JsonValue)>)
    ensures
        object_view(members@) == Seq::<(Seq<char>, JsonView)>::empty(),
{
    let members: Vec<(String, JsonValue)> = Vec::new();
    assert(object_view(members@) =~= Seq::<(Seq<char>, JsonView)>::empty());
    members
}

} // verus!

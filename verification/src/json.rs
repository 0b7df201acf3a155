//! JSON values as the control plane reads and writes them.
use crate::seqs::{first_index, first_index_is, first_match};
use crate::text::{
    rank_texts, same, text_before, text_before_asym, text_before_total, text_before_trans, Rank,
};
use vstd::prelude::*;
use vstd::string::*;
use vstd::utf8::encode_utf8;

verus! {

/// A JSON value. A number that is no integer is kept as its text.
#[derive(Debug)]
pub enum Json {
    Null,
    Bool(bool),
    Unsigned(u64),
    /// A negative integer.
    Signed(i64),
    Float(String),
    Text(String),
    Array(Vec<Json>),
    Object(Vec<(String, Json)>),
}

/// The mathematical value of a [`Json`].
pub enum JsonView {
    Null,
    Bool(bool),
    Unsigned(u64),
    Signed(i64),
    Float(Seq<char>),
    Text(Seq<char>),
    Array(Seq<JsonView>),
    Object(Seq<(Seq<char>, JsonView)>),
}

impl View for Json {
    type V = JsonView;

    open spec fn view(&self) -> JsonView {
        json_view(*self)
    }
}

pub open spec fn json_view(j: Json) -> JsonView
    decreases j,
{
    match j {
        Json::Null => JsonView::Null,
        Json::Bool(b) => JsonView::Bool(b),
        Json::Unsigned(n) => JsonView::Unsigned(n),
        Json::Signed(n) => JsonView::Signed(n),
        Json::Float(t) => JsonView::Float(t@),
        Json::Text(t) => JsonView::Text(t@),
        Json::Array(items) => JsonView::Array(
            Seq::new(
                items@.len(),
                |i: int|
                    if 0 <= i < items@.len() {
                        json_view(items[i])
                    } else {
                        arbitrary()
                    },
            ),
        ),
        Json::Object(members) => JsonView::Object(
            Seq::new(
                members@.len(),
                |i: int|
                    if 0 <= i < members@.len() {
                        (members[i].0@, json_view(members[i].1))
                    } else {
                        arbitrary()
                    },
            ),
        ),
    }
}

/// Views of an object's members.
pub open spec fn members_view(s: Seq<(String, Json)>) -> Seq<(Seq<char>, JsonView)> {
    s.map_values(|m: (String, Json)| (m.0@, m.1@))
}

/// Views of an array's items.
pub open spec fn items_view(s: Seq<Json>) -> Seq<JsonView> {
    s.map_values(|j: Json| j@)
}

/// An object's view is that of its members.
pub proof fn object_view(members: Vec<(String, Json)>)
    ensures
        Json::Object(members)@ == JsonView::Object(members_view(members@)),
{
    if let JsonView::Object(s) = Json::Object(members)@ {
        assert(s =~= members_view(members@));
    }
}

/// An array's view is that of its items.
pub proof fn array_view(items: Vec<Json>)
    ensures
        Json::Array(items)@ == JsonView::Array(items_view(items@)),
{
    if let JsonView::Array(s) = Json::Array(items)@ {
        assert(s =~= items_view(items@));
    }
}

/// The member called `key`.
pub open spec fn keyed(key: Seq<char>) -> spec_fn((Seq<char>, JsonView)) -> bool {
    |m: (Seq<char>, JsonView)| m.0 == key
}

impl JsonView {
    /// The value of an object's member.
    pub open spec fn field(self, key: Seq<char>) -> Option<JsonView> {
        match self {
            JsonView::Object(members) => match first_match(members, keyed(key)) {
                Some(m) => Some(m.1),
                None => None,
            },
            _ => None,
        }
    }

    pub open spec fn text(self) -> Option<Seq<char>> {
        match self {
            JsonView::Text(t) => Some(t),
            _ => None,
        }
    }

    pub open spec fn unsigned(self) -> Option<u64> {
        match self {
            JsonView::Unsigned(n) => Some(n),
            _ => None,
        }
    }

    pub open spec fn boolean(self) -> Option<bool> {
        match self {
            JsonView::Bool(b) => Some(b),
            _ => None,
        }
    }

    /// The text of an object's member.
    pub open spec fn text_field(self, key: Seq<char>) -> Option<Seq<char>> {
        match self.field(key) {
            Some(v) => v.text(),
            None => None,
        }
    }

    /// The number of an object's member.
    pub open spec fn unsigned_field(self, key: Seq<char>) -> Option<u64> {
        match self.field(key) {
            Some(v) => v.unsigned(),
            None => None,
        }
    }
}

impl Json {
    /// The value of an object's member; nothing else has members.
    pub fn get(&self, key: &str) -> (r: Option<&Json>)
        ensures
            match r {
                Some(v) => self@.field(key@) == Some(v@),
                None => self@.field(key@) is None,
            },
    {
        match self {
            Json::Object(members) => {
                let ghost views = members_view(members@);
                proof {
                    object_view(*members);
                }
                let mut i: usize = 0;
                while i < members.len()
                    invariant
                        i <= members@.len(),
                        views == members_view(members@),
                        self@ == JsonView::Object(views),
                        forall|j: int| 0 <= j < i ==> !keyed(key@)(#[trigger] views[j]),
                    decreases members@.len() - i,
                {
                    assert(views[i as int] == (members@[i as int].0@, members@[i as int].1@));
                    if same(members[i].0.as_str(), key) {
                        proof {
                            first_index_is(views, keyed(key@), i as int);
                        }
                        return Some(&members[i].1);
                    }
                    i = i + 1;
                }
                proof {
                    first_index_is(views, keyed(key@), i as int);
                }
                None
            },
            _ => None,
        }
    }

    pub fn as_str(&self) -> (r: Option<&str>)
        ensures
            match r {
                Some(t) => self@.text() == Some(t@),
                None => self@.text() is None,
            },
    {
        match self {
            Json::Text(t) => Some(t.as_str()),
            _ => None,
        }
    }

    pub fn as_u64(&self) -> (r: Option<u64>)
        ensures
            r == self@.unsigned(),
    {
        match self {
            Json::Unsigned(n) => Some(*n),
            _ => None,
        }
    }

    pub fn as_bool(&self) -> (r: Option<bool>)
        ensures
            r == self@.boolean(),
    {
        match self {
            Json::Bool(b) => Some(*b),
            _ => None,
        }
    }

    /// The text of an object's member.
    pub fn text_of(&self, key: &str) -> (r: Option<&str>)
        ensures
            match r {
                Some(t) => self@.text_field(key@) == Some(t@),
                None => self@.text_field(key@) is None,
            },
    {
        match self.get(key) {
            Some(v) => v.as_str(),
            None => None,
        }
    }

    /// The number of an object's member.
    pub fn unsigned_of(&self, key: &str) -> (r: Option<u64>)
        ensures
            r == self@.unsigned_field(key@),
    {
        match self.get(key) {
            Some(v) => v.as_u64(),
            None => None,
        }
    }

    /// A text value.
    pub fn from_text(t: &str) -> (r: Json)
        ensures
            r@ == JsonView::Text(t@),
    {
        Json::Text(t.to_owned())
    }

    /// An object of the given members.
    pub fn object(members: Vec<(String, Json)>) -> (r: Json)
        ensures
            r@ == JsonView::Object(members_view(members@)),
    {
        proof {
            object_view(members);
        }
        Json::Object(members)
    }

    /// An array of the given items.
    pub fn array(items: Vec<Json>) -> (r: Json)
        ensures
            r@ == JsonView::Array(items_view(items@)),
    {
        proof {
            array_view(items);
        }
        Json::Array(items)
    }
}

/// A JSON value of `serde_json`.
#[verifier::external_type_specification]
#[verifier::external_body]
pub struct ExValue(serde_json::Value);

/// What a `serde_json` value holds.
pub uninterp spec fn value_view(v: serde_json::Value) -> JsonView;

/// How deep a `serde_json` value nests.
pub uninterp spec fn value_depth(v: serde_json::Value) -> nat;

/// The value that a JSON text spells, if it is one.
pub uninterp spec fn json_parsed(bytes: Seq<u8>) -> Option<JsonView>;

/// `serde_json::from_slice` on a value: a function of the bytes alone, which
/// gives nothing where they are no JSON text.
#[verifier::external_body]
fn value_from_slice(bytes: &[u8]) -> (r: Option<serde_json::Value>)
    ensures
        match r {
            Some(v) => json_parsed(bytes@) == Some(value_view(v)),
            None => json_parsed(bytes@) is None,
        },
{
    serde_json::from_slice::<serde_json::Value>(bytes).ok()
}

/// The top of a `serde_json` value, its parts still closed.
pub enum JsonShape {
    Null,
    Bool(bool),
    Unsigned(u64),
    Signed(i64),
    Float(String),
    Text(String),
    Array(Vec<serde_json::Value>),
    Object(Vec<(String, serde_json::Value)>),
}

pub open spec fn shape_view(s: JsonShape) -> JsonView {
    match s {
        JsonShape::Null => JsonView::Null,
        JsonShape::Bool(b) => JsonView::Bool(b),
        JsonShape::Unsigned(n) => JsonView::Unsigned(n),
        JsonShape::Signed(n) => JsonView::Signed(n),
        JsonShape::Float(t) => JsonView::Float(t@),
        JsonShape::Text(t) => JsonView::Text(t@),
        JsonShape::Array(items) => JsonView::Array(
            items@.map_values(|v: serde_json::Value| value_view(v)),
        ),
        JsonShape::Object(members) => JsonView::Object(
            members@.map_values(|m: (String, serde_json::Value)| (m.0@, value_view(m.1))),
        ),
    }
}

/// The parts of a shape nest less deep than `depth`.
pub open spec fn shallower(s: JsonShape, depth: nat) -> bool {
    match s {
        JsonShape::Array(items) => forall|i: int|
            0 <= i < items@.len() ==> value_depth(#[trigger] items@[i]) < depth,
        JsonShape::Object(members) => forall|i: int|
            0 <= i < members@.len() ==> value_depth((#[trigger] members@[i]).1) < depth,
        _ => true,
    }
}

/// Opens a `serde_json::Value` by its variant: the shape holds what the value
/// holds, and its parts nest less deep. A number is told apart by `as_u64`
/// and `as_i64`; one that is no integer keeps the text that it prints as.
#[verifier::external_body]
fn value_shape(v: serde_json::Value) -> (r: JsonShape)
    ensures
        shape_view(r) == value_view(v),
        shallower(r, value_depth(v)),
{
    match v {
        serde_json::Value::Null => JsonShape::Null,
        serde_json::Value::Bool(b) => JsonShape::Bool(b),
        serde_json::Value::Number(n) => match (n.as_u64(), n.as_i64()) {
            (Some(u), _) => JsonShape::Unsigned(u),
            (None, Some(i)) => JsonShape::Signed(i),
            (None, None) => JsonShape::Float(n.to_string()),
        },
        serde_json::Value::String(s) => JsonShape::Text(s),
        serde_json::Value::Array(items) => JsonShape::Array(items),
        serde_json::Value::Object(map) => JsonShape::Object(map.into_iter().collect()),
    }
}

/// Opens a `serde_json` value all the way down.
fn json_from_value(v: serde_json::Value) -> (r: Json)
    ensures
        r@ == value_view(v),
    decreases value_depth(v),
{
    match value_shape(v) {
        JsonShape::Null => Json::Null,
        JsonShape::Bool(b) => Json::Bool(b),
        JsonShape::Unsigned(n) => Json::Unsigned(n),
        JsonShape::Signed(n) => Json::Signed(n),
        JsonShape::Float(t) => Json::Float(t),
        JsonShape::Text(t) => Json::Text(t),
        JsonShape::Array(items) => {
            let ghost all = items@;
            let ghost depth = value_depth(v);
            let mut rest = items;
            let mut out: Vec<Json> = Vec::new();
            while rest.len() > 0
                invariant
                    depth == value_depth(v),
                    forall|i: int| 0 <= i < all.len() ==> value_depth(#[trigger] all[i]) < depth,
                    out@.len() <= all.len(),
                    rest@ == all.skip(out@.len() as int),
                    forall|i: int| 0 <= i < out@.len() ==> (#[trigger] out@[i])@ == value_view(all[i]),
                decreases rest@.len(),
            {
                let ghost k = out@.len() as int;
                assert(rest@[0] == all[k]);
                let item = rest.remove(0);
                assert(rest@ =~= all.skip(k + 1));
                out.push(json_from_value(item));
            }
            assert(items_view(out@) =~= all.map_values(|v: serde_json::Value| value_view(v)));
            Json::array(out)
        },
        JsonShape::Object(members) => {
            let ghost all = members@;
            let ghost depth = value_depth(v);
            let mut rest = members;
            let mut out: Vec<(String, Json)> = Vec::new();
            while rest.len() > 0
                invariant
                    depth == value_depth(v),
                    forall|i: int|
                        0 <= i < all.len() ==> value_depth((#[trigger] all[i]).1) < depth,
                    out@.len() <= all.len(),
                    rest@ == all.skip(out@.len() as int),
                    forall|i: int|
                        0 <= i < out@.len() ==> (#[trigger] out@[i]).0@ == all[i].0@ && out@[i].1@
                            == value_view(all[i].1),
                decreases rest@.len(),
            {
                let ghost k = out@.len() as int;
                assert(rest@[0] == all[k]);
                let (key, value) = rest.remove(0);
                assert(rest@ =~= all.skip(k + 1));
                out.push((key, json_from_value(value)));
            }
            assert(members_view(out@) =~= all.map_values(
                |m: (String, serde_json::Value)| (m.0@, value_view(m.1)),
            ));
            Json::object(out)
        },
    }
}

/// Reads a JSON text.
pub fn decode_json(bytes: &[u8]) -> (r: Option<Json>)
    ensures
        match r {
            Some(j) => json_parsed(bytes@) == Some(j@),
            None => json_parsed(bytes@) is None,
        },
{
    match value_from_slice(bytes) {
        Some(v) => Some(json_from_value(v)),
        None => None,
    }
}

/// Whether members stand in strictly ascending order of their names.
pub open spec fn ascending<V>(s: Seq<(Seq<char>, V)>) -> bool {
    forall|i: int, j: int|
        0 <= i < j < s.len() ==> text_before((#[trigger] s[i]).0, (#[trigger] s[j]).0)
}

/// The names of members whose values are still closed.
pub open spec fn named_values(s: Seq<(String, serde_json::Value)>) -> Seq<(Seq<char>, JsonView)> {
    s.map_values(|m: (String, serde_json::Value)| (m.0@, value_view(m.1)))
}

/// The value that a number's text spells; null where it spells none.
pub open spec fn spelled(t: Seq<char>) -> JsonView {
    match json_parsed(encode_utf8(t)) {
        Some(v) => v,
        None => JsonView::Null,
    }
}

/// What closing a shape gives: an integer that is not negative is unsigned,
/// and the text of any other number is read.
pub open spec fn closed_view(s: JsonShape) -> JsonView {
    match s {
        JsonShape::Signed(n) => if n < 0 {
            JsonView::Signed(n)
        } else {
            JsonView::Unsigned(n as u64)
        },
        JsonShape::Float(t) => spelled(t@),
        _ => shape_view(s),
    }
}

/// Makes a `serde_json::Value` by its variant: it holds what the shape holds.
/// A number's text goes through `serde_json::from_str`. The map of an object
/// keeps members that come in ascending order in that order.
#[verifier::external_body]
fn value_of_shape(s: JsonShape) -> (r: serde_json::Value)
    requires
        s matches JsonShape::Object(members) ==> ascending(named_values(members@)),
    ensures
        value_view(r) == closed_view(s),
{
    match s {
        JsonShape::Null => serde_json::Value::Null,
        JsonShape::Bool(b) => serde_json::Value::Bool(b),
        JsonShape::Unsigned(n) => serde_json::Value::from(n),
        JsonShape::Signed(n) => serde_json::Value::from(n),
        JsonShape::Float(t) => serde_json::from_str(&t).unwrap_or(serde_json::Value::Null),
        JsonShape::Text(t) => serde_json::Value::String(t),
        JsonShape::Array(items) => serde_json::Value::Array(items),
        JsonShape::Object(members) => serde_json::Value::Object(members.into_iter().collect()),
    }
}

/// The bytes that a value is written as.
pub uninterp spec fn json_written(v: JsonView) -> Seq<u8>;

/// Whether a value is read back as it was written: it nests no deeper than
/// the reader follows, and all its numbers are integers.
pub open spec fn legible(v: JsonView, depth: nat) -> bool
    decreases depth,
{
    match v {
        JsonView::Float(_) => false,
        JsonView::Array(items) => depth > 0 && forall|i: int|
            0 <= i < items.len() ==> legible(#[trigger] items[i], (depth - 1) as nat),
        JsonView::Object(members) => depth > 0 && forall|i: int|
            0 <= i < members.len() ==> legible((#[trigger] members[i]).1, (depth - 1) as nat),
        _ => true,
    }
}

/// How deep a value may nest to be read back for certain.
pub const LEGIBLE_DEPTH: usize = 100;

/// The room that a text takes at most: its quotes, and six bytes for each of
/// its own, as a control character is escaped.
pub open spec fn quoted_room(t: Seq<char>) -> nat {
    2 + 6 * encode_utf8(t).len()
}

/// The room that a value takes at most.
pub open spec fn room(v: JsonView) -> nat
    decreases v, 0nat,
{
    match v {
        JsonView::Null => 4,
        JsonView::Bool(_) => 5,
        JsonView::Unsigned(_) => 20,
        JsonView::Signed(_) => 20,
        JsonView::Float(t) => encode_utf8(t).len(),
        JsonView::Text(t) => quoted_room(t),
        JsonView::Array(items) => 2 + items_room(items, items.len()),
        JsonView::Object(members) => 2 + members_room(members, members.len()),
    }
}

/// The room that the first `n` items take at most, with their commas.
pub open spec fn items_room(items: Seq<JsonView>, n: nat) -> nat
    decreases items, n,
{
    if n == 0 || n > items.len() {
        0
    } else {
        items_room(items, (n - 1) as nat) + room(items[n - 1]) + 1
    }
}

/// The room that the first `n` members take at most, with colons and commas.
pub open spec fn members_room(members: Seq<(Seq<char>, JsonView)>, n: nat) -> nat
    decreases members, n,
{
    if n == 0 || n > members.len() {
        0
    } else {
        members_room(members, (n - 1) as nat) + quoted_room(members[n - 1].0) + room(
            members[n - 1].1,
        ) + 2
    }
}

/// `serde_json::to_vec` on a value: a function of what the value holds.
/// Writing a value to memory does not fail, and `serde_json::from_slice`
/// reads the bytes back as the same value, unless it nests deeper than the
/// reader's limit or holds a number that is no integer. The compact form has
/// no blanks, an integer has at most twenty characters, a number that is none
/// is written as it prints, and no byte of a text is escaped to more than six.
#[verifier::external_body]
fn value_to_vec(v: &serde_json::Value) -> (r: Vec<u8>)
    ensures
        r@ == json_written(value_view(*v)),
        legible(value_view(*v), LEGIBLE_DEPTH as nat) ==> json_parsed(r@) == Some(value_view(*v)),
        r@.len() <= room(value_view(*v)),
{
    serde_json::to_vec(v).unwrap_or_default()
}

/// Whether a member does not come before a name.
pub open spec fn not_before<V>(name: Seq<char>) -> spec_fn((Seq<char>, V)) -> bool {
    |m: (Seq<char>, V)| !text_before(m.0, name)
}

/// Ascending members with one more in its place; one of the same name goes.
pub open spec fn placed<V>(s: Seq<(Seq<char>, V)>, name: Seq<char>, value: V) -> Seq<
    (Seq<char>, V),
> {
    let i = first_index(s, not_before(name));
    if i < s.len() && s[i].0 == name {
        s.update(i, (name, value))
    } else {
        s.insert(i, (name, value))
    }
}

/// A value as it stands on the wire: members in ascending order of their
/// names, the last of a name winning.
pub open spec fn canonical(v: JsonView) -> JsonView
    decreases v, 0nat,
{
    match v {
        JsonView::Signed(n) => if n < 0 {
            v
        } else {
            JsonView::Unsigned(n as u64)
        },
        JsonView::Float(t) => spelled(t),
        JsonView::Array(items) => JsonView::Array(canonical_items(items, items.len())),
        JsonView::Object(members) => JsonView::Object(canonical_members(members, members.len())),
        _ => v,
    }
}

/// The first `n` items as they stand on the wire.
pub open spec fn canonical_items(items: Seq<JsonView>, n: nat) -> Seq<JsonView>
    decreases items, n,
{
    if n == 0 || n > items.len() {
        Seq::empty()
    } else {
        canonical_items(items, (n - 1) as nat).push(canonical(items[n - 1]))
    }
}

/// The first `n` members as they stand on the wire.
pub open spec fn canonical_members(members: Seq<(Seq<char>, JsonView)>, n: nat) -> Seq<
    (Seq<char>, JsonView),
>
    decreases members, n,
{
    if n == 0 || n > members.len() {
        Seq::empty()
    } else {
        placed(
            canonical_members(members, (n - 1) as nat),
            members[n - 1].0,
            canonical(members[n - 1].1),
        )
    }
}

/// What a placed member does to ascending members, given its place.
pub proof fn placed_at<V>(s: Seq<(Seq<char>, V)>, name: Seq<char>, value: V, i: int)
    requires
        ascending(s),
        0 <= i <= s.len(),
        forall|j: int| 0 <= j < i ==> text_before((#[trigger] s[j]).0, name),
        i < s.len() ==> s[i].0 == name || text_before(name, s[i].0),
    ensures
        placed(s, name, value) == if i < s.len() && s[i].0 == name {
            s.update(i, (name, value))
        } else {
            s.insert(i, (name, value))
        },
        ascending(placed(s, name, value)),
{
    let p = not_before::<V>(name);
    assert forall|j: int| 0 <= j < i implies !p(#[trigger] s[j]) by {
        assert(text_before(s[j].0, name));
    }
    if i < s.len() {
        if text_before(name, s[i].0) {
            text_before_asym(name, s[i].0);
        } else if text_before(name, name) {
            text_before_asym(name, name);
        }
    }
    first_index_is(s, p, i);
    let r = placed(s, name, value);
    assert forall|a: int, b: int| 0 <= a < b < r.len() implies text_before(
        (#[trigger] r[a]).0,
        (#[trigger] r[b]).0,
    ) by {
        if i < s.len() && s[i].0 == name {
            assert(s[a].0 == r[a].0 && s[b].0 == r[b].0);
        } else {
            let sa = if a < i { a } else { a - 1 };
            let sb = if b < i { b } else { b - 1 };
            if a == i {
                assert(r[b] == s[sb]);
                if sb > i {
                    assert(text_before(s[i].0, s[sb].0));
                    text_before_trans(name, s[i].0, s[sb].0);
                }
            } else if b == i {
                assert(r[a] == s[a]);
            } else {
                assert(r[a] == s[sa] && r[b] == s[sb]);
            }
        }
    }
}

/// The value that `serde_json` writes for a value of the library.
fn value_of(j: &Json) -> (r: serde_json::Value)
    ensures
        value_view(r) == canonical(j@),
    decreases j,
{
    match j {
        Json::Null => value_of_shape(JsonShape::Null),
        Json::Bool(b) => value_of_shape(JsonShape::Bool(*b)),
        Json::Unsigned(n) => value_of_shape(JsonShape::Unsigned(*n)),
        Json::Signed(n) => value_of_shape(JsonShape::Signed(*n)),
        Json::Float(t) => value_of_shape(JsonShape::Float(t.clone())),
        Json::Text(t) => value_of_shape(JsonShape::Text(t.clone())),
        Json::Array(items) => {
            let ghost all = items_view(items@);
            proof {
                array_view(*items);
            }
            let mut out: Vec<serde_json::Value> = Vec::new();
            let mut i: usize = 0;
            assert(out@.map_values(|v: serde_json::Value| value_view(v)) =~= canonical_items(
                all,
                0,
            ));
            while i < items.len()
                invariant
                    all == items_view(items@),
                    j == Json::Array(*items),
                    i <= items@.len(),
                    out@.map_values(|v: serde_json::Value| value_view(v)) == canonical_items(
                        all,
                        i as nat,
                    ),
                decreases items@.len() - i,
            {
                assert(all[i as int] == items@[i as int]@);
                assert(decreases_to!(*j => j->Array_0));
                assert(decreases_to!(*items => items[i as int]));
                assert(decreases_to!(*j => items[i as int]));
                let ghost was = out@;
                let item = value_of(&items[i]);
                out.push(item);
                i = i + 1;
                assert(out@.map_values(|v: serde_json::Value| value_view(v))
                    =~= was.map_values(|v: serde_json::Value| value_view(v)).push(
                    value_view(item),
                ));
            }
            value_of_shape(JsonShape::Array(out))
        },
        Json::Object(members) => {
            let ghost all = members_view(members@);
            proof {
                object_view(*members);
            }
            let mut out: Vec<(String, serde_json::Value)> = Vec::new();
            let mut i: usize = 0;
            assert(named_values(out@) =~= canonical_members(all, 0));
            while i < members.len()
                invariant
                    all == members_view(members@),
                    j == Json::Object(*members),
                    i <= members@.len(),
                    ascending(named_values(out@)),
                    named_values(out@) == canonical_members(all, i as nat),
                decreases members@.len() - i,
            {
                assert(all[i as int] == (members@[i as int].0@, members@[i as int].1@));
                assert(decreases_to!(*j => j->Object_0));
                assert(decreases_to!(*members => members[i as int]));
                assert(decreases_to!(*members => members[i as int].1));
                assert(decreases_to!(*j => members[i as int].1));
                let value = value_of(&members[i].1);
                out = place(out, &members[i].0, value);
                i = i + 1;
            }
            value_of_shape(JsonShape::Object(out))
        },
    }
}

fn place(members: Vec<(String, serde_json::Value)>, name: &String, value: serde_json::Value) -> (r:
    Vec<(String, serde_json::Value)>)
    requires
        ascending(named_values(members@)),
    ensures
        ascending(named_values(r@)),
        named_values(r@) == placed(named_values(members@), name@, value_view(value)),
{
    let ghost s = named_values(members@);
    let mut members = members;
    let mut i: usize = 0;
    while i < members.len() && rank_texts(members[i].0.as_str(), name.as_str()) == Rank::Before
        invariant
            s == named_values(members@),
            i <= members@.len(),
            forall|j: int| 0 <= j < i ==> text_before((#[trigger] s[j]).0, name@),
        decreases members@.len() - i,
    {
        assert(s[i as int].0 == members@[i as int].0@);
        i = i + 1;
    }
    let same_name: bool = i < members.len() && same(members[i].0.as_str(), name.as_str());
    proof {
        if i < members@.len() {
            assert(s[i as int].0 == members@[i as int].0@);
            text_before_total(s[i as int].0, name@);
        }
        placed_at(s, name@, value_view(value), i as int);
    }
    let member = (name.clone(), value);
    if same_name {
        members.set(i, member);
    } else {
        members.insert(i, member);
    }
    assert(named_values(members@) =~= placed(s, name@, value_view(value)));
    members
}

/// A JSON value as bytes on the wire.
pub open spec fn json_bytes(v: JsonView) -> Seq<u8> {
    json_written(canonical(v))
}

/// Whether bytes are those of a value, and are read back as it.
pub open spec fn written(bytes: Seq<u8>, v: JsonView) -> bool {
    &&& bytes == json_bytes(v)
    &&& legible(canonical(v), LEGIBLE_DEPTH as nat) ==> json_parsed(bytes) == Some(canonical(v))
}

/// Writes a JSON value as compact bytes.
pub fn encode_json(j: &Json) -> (r: Vec<u8>)
    ensures
        written(r@, j@),
        r@.len() <= room(canonical(j@)),
{
    value_to_vec(&value_of(j))
}

/// A copy of a JSON value.
pub fn copy_json(j: &Json) -> (r: Json)
    ensures
        r@ == j@,
    decreases j,
{
    match j {
        Json::Null => Json::Null,
        Json::Bool(b) => Json::Bool(*b),
        Json::Unsigned(n) => Json::Unsigned(*n),
        Json::Signed(n) => Json::Signed(*n),
        Json::Float(t) => Json::Float(t.clone()),
        Json::Text(t) => Json::Text(t.clone()),
        Json::Array(items) => {
            let mut out: Vec<Json> = Vec::new();
            let mut i: usize = 0;
            while i < items.len()
                invariant
                    j == Json::Array(*items),
                    i <= items@.len(),
                    out@.len() == i,
                    forall|k: int| 0 <= k < i ==> (#[trigger] out@[k])@ == items@[k]@,
                decreases items@.len() - i,
            {
                assert(decreases_to!(*j => j->Array_0));
                assert(decreases_to!(*items => items[i as int]));
                assert(decreases_to!(*j => items[i as int]));
                out.push(copy_json(&items[i]));
                i = i + 1;
            }
            proof {
                array_view(*items);
                assert(items_view(out@) =~= items_view(items@));
            }
            Json::array(out)
        },
        Json::Object(members) => {
            let mut out: Vec<(String, Json)> = Vec::new();
            let mut i: usize = 0;
            while i < members.len()
                invariant
                    j == Json::Object(*members),
                    i <= members@.len(),
                    out@.len() == i,
                    forall|k: int|
                        0 <= k < i ==> (#[trigger] out@[k]).0@ == members@[k].0@ && out@[k].1@
                            == members@[k].1@,
                decreases members@.len() - i,
            {
                assert(decreases_to!(*j => j->Object_0));
                assert(decreases_to!(*members => members[i as int]));
                assert(decreases_to!(*members => members[i as int].1));
                assert(decreases_to!(*j => members[i as int].1));
                out.push((members[i].0.clone(), copy_json(&members[i].1)));
                i = i + 1;
            }
            proof {
                object_view(*members);
                assert(members_view(out@) =~= members_view(members@));
            }
            Json::object(out)
        },
    }
}

/// No members yet.
pub fn no_members() -> (r: Vec<(String, Json)>)
    ensures
        members_view(r@) == Seq::<(Seq<char>, JsonView)>::empty(),
{
    let r: Vec<(String, Json)> = Vec::new();
    assert(members_view(r@) =~= Seq::<(Seq<char>, JsonView)>::empty());
    r
}

/// The members with one more at the end.
pub fn with_member(members: Vec<(String, Json)>, key: &str, value: Json) -> (r: Vec<(String, Json)>)
    ensures
        members_view(r@) == members_view(members@).push((key@, value@)),
{
    let mut members = members;
    let ghost was = members@;
    members.push((key.to_owned(), value));
    assert(members_view(members@) =~= members_view(was).push((key@, value@)));
    members
}

/// An object with one member.
pub fn object1(k1: &str, v1: Json) -> (r: Json)
    ensures
        r@ == JsonView::Object(seq![(k1@, v1@)]),
{
    let m = with_member(no_members(), k1, v1);
    assert(members_view(m@) =~= seq![(k1@, v1@)]);
    Json::object(m)
}

/// An object with two members.
pub fn object2(k1: &str, v1: Json, k2: &str, v2: Json) -> (r: Json)
    ensures
        r@ == JsonView::Object(seq![(k1@, v1@), (k2@, v2@)]),
{
    let m = with_member(with_member(no_members(), k1, v1), k2, v2);
    assert(members_view(m@) =~= seq![(k1@, v1@), (k2@, v2@)]);
    Json::object(m)
}

/// An object with three members.
pub fn object3(k1: &str, v1: Json, k2: &str, v2: Json, k3: &str, v3: Json) -> (r: Json)
    ensures
        r@ == JsonView::Object(seq![(k1@, v1@), (k2@, v2@), (k3@, v3@)]),
{
    let m = with_member(with_member(with_member(no_members(), k1, v1), k2, v2), k3, v3);
    assert(members_view(m@) =~= seq![(k1@, v1@), (k2@, v2@), (k3@, v3@)]);
    Json::object(m)
}

} // verus!

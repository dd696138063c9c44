//! JSON documents as values.
use vstd::prelude::*;

verus! {

/// A JSON document. The entries of an object stand in the order in which they were set; where a
/// key occurs twice, the later entry counts.
#[derive(Debug)]
pub enum Json {
    Bool(bool),
    Int(i64),
    Text(String),
    List(Vec<Json>),
    Object(Vec<(String, Json)>),
}

/// The mathematical content of a JSON document: an object is a map from its keys.
#[verifier::ext_equal]
pub enum JsonView {
    Bool(bool),
    Int(int),
    Text(Seq<char>),
    List(Seq<JsonView>),
    Object(Map<Seq<char>, JsonView>),
}

/// The contents of the items of a list.
pub open spec fn items_view(items: Seq<Json>) -> Seq<JsonView>
    decreases items,
{
    if items.len() == 0 {
        Seq::empty()
    } else {
        items_view(items.drop_last()).push(items.last().content())
    }
}

/// The map that the entries of an object make.
pub open spec fn fields_view(fields: Seq<(String, Json)>) -> Map<Seq<char>, JsonView>
    decreases fields,
{
    if fields.len() == 0 {
        Map::empty()
    } else {
        fields_view(fields.drop_last()).insert(fields.last().0@, fields.last().1.content())
    }
}

impl JsonView {
    /// The object without entries.
    pub open spec fn object() -> JsonView {
        JsonView::Object(Map::empty())
    }

    /// The list without items.
    pub open spec fn list() -> JsonView {
        JsonView::List(Seq::empty())
    }

    /// The object with `key` set to `value`.
    pub open spec fn with(self, key: Seq<char>, value: JsonView) -> JsonView
        recommends
            self is Object,
    {
        JsonView::Object(self->Object_0.insert(key, value))
    }

    /// The list with `value` behind its items.
    pub open spec fn item(self, value: JsonView) -> JsonView
        recommends
            self is List,
    {
        JsonView::List(self->List_0.push(value))
    }

    /// Whether the document is an object that has `key`.
    pub open spec fn has(self, key: Seq<char>) -> bool {
        self is Object && self->Object_0.contains_key(key)
    }

    /// What stands under `key`.
    pub open spec fn at(self, key: Seq<char>) -> JsonView
        recommends
            self.has(key),
    {
        self->Object_0[key]
    }

    /// The item of a list at position `i`.
    pub open spec fn nth(self, i: int) -> JsonView
        recommends
            self is List,
            0 <= i < self->List_0.len(),
    {
        self->List_0[i]
    }
}

impl Json {
    /// The mathematical content of the document.
    pub open spec fn content(self) -> JsonView
        decreases self,
    {
        match self {
            Json::Bool(b) => JsonView::Bool(b),
            Json::Int(i) => JsonView::Int(i as int),
            Json::Text(s) => JsonView::Text(s@),
            Json::List(items) => JsonView::List(items_view(items@)),
            Json::Object(fields) => JsonView::Object(fields_view(fields@)),
        }
    }

    /// The object without entries.
    pub fn object() -> (res: Json)
        ensures
            res is Object,
            res@ == JsonView::object(),
    {
        Json::Object(Vec::new())
    }

    /// The list without items.
    pub fn list() -> (res: Json)
        ensures
            res is List,
            res@ == JsonView::list(),
    {
        Json::List(Vec::new())
    }

    /// A text.
    pub fn text(s: &str) -> (res: Json)
        ensures
            res@ == JsonView::Text(s@),
    {
        Json::Text(s.to_owned())
    }

    /// The object with `key` set to `value`.
    pub fn with(self, key: &str, value: Json) -> (res: Json)
        requires
            self is Object,
        ensures
            res is Object,
            res@ == self@.with(key@, value@),
    {
        match self {
            Json::Object(entries) => {
                let mut fields = entries;
                let ghost before = fields@;
                fields.push((key.to_owned(), value));
                assert(fields@.drop_last() == before);
                Json::Object(fields)
            },
            other => other,
        }
    }

    /// The list with `value` behind its items.
    pub fn item(self, value: Json) -> (res: Json)
        requires
            self is List,
        ensures
            res is List,
            res@ == self@.item(value@),
    {
        match self {
            Json::List(values) => {
                let mut items = values;
                let ghost before = items@;
                items.push(value);
                assert(items@.drop_last() == before);
                Json::List(items)
            },
            other => other,
        }
    }

    /// The object with `key` set to the text `value`.
    pub fn with_text(self, key: &str, value: &str) -> (res: Json)
        requires
            self is Object,
        ensures
            res is Object,
            res@ == self@.with(key@, JsonView::Text(value@)),
    {
        self.with(key, Json::text(value))
    }
}

impl View for Json {
    type V = JsonView;

    open spec fn view(&self) -> JsonView {
        self.content()
    }
}

/// What is set in an object is read back, and the rest of the object stays as it is; what is put at
/// the end of a list is read back, and the items before it stay.
pub proof fn documents_hold_what_is_put_in(
    object: Map<Seq<char>, JsonView>,
    list: Seq<JsonView>,
    key: Seq<char>,
    other: Seq<char>,
    value: JsonView,
    i: int,
)
    ensures
        ({
            let changed = JsonView::Object(object).with(key, value);
            let longer = JsonView::List(list).item(value);
            &&& changed.has(key)
            &&& changed.at(key) == value
            &&& other != key ==> changed.has(other) == JsonView::Object(object).has(other)
            &&& other != key ==> changed.at(other) == JsonView::Object(object).at(other)
            &&& longer->List_0.len() == list.len() + 1
            &&& longer.nth(list.len() as int) == value
            &&& 0 <= i < list.len() ==> longer.nth(i) == list[i]
            &&& !JsonView::object().has(key)
            &&& JsonView::list()->List_0.len() == 0
        }),
{
}

} // verus!

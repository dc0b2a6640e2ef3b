//! JSON documents as the rest of the crate reads and builds them.

use vstd::prelude::*;

use crate::text::same_text;

verus! {

/// What a JSON number is: an unsigned integer, a negative integer, or any other
/// number, by its decimal text.
pub enum NumberView {
    Unsigned(u64),
    Negative(i64),
    Float(Seq<char>),
}

/// The mathematical value of a JSON document.
pub enum JsonView {
    Null,
    Bool(bool),
    Number(NumberView),
    String(Seq<char>),
    Array(Seq<JsonView>),
    Object(Map<Seq<char>, JsonView>),
}

impl JsonView {
    /// The integer `n`.
    pub open spec fn integer(n: int) -> JsonView {
        if n < 0 {
            JsonView::Number(NumberView::Negative(n as i64))
        } else {
            JsonView::Number(NumberView::Unsigned(n as u64))
        }
    }

    /// The object without members.
    pub open spec fn object() -> JsonView {
        JsonView::Object(Map::empty())
    }

    /// An object with one member more, or with that member replaced. What is no
    /// object stays as it is.
    pub open spec fn with(self, key: Seq<char>, value: JsonView) -> JsonView {
        match self {
            JsonView::Object(members) => JsonView::Object(members.insert(key, value)),
            _ => self,
        }
    }

    /// The member named `key`, where this is an object that has one.
    pub open spec fn get(self, key: Seq<char>) -> Option<JsonView> {
        match self {
            JsonView::Object(members) => if members.dom().contains(key) {
                Some(members[key])
            } else {
                None
            },
            _ => None,
        }
    }

    /// The text, where this is a string.
    pub open spec fn as_str(self) -> Option<Seq<char>> {
        match self {
            JsonView::String(text) => Some(text),
            _ => None,
        }
    }

    /// The elements, where this is an array.
    pub open spec fn as_array(self) -> Option<Seq<JsonView>> {
        match self {
            JsonView::Array(items) => Some(items),
            _ => None,
        }
    }

    /// The truth value, where this is one.
    pub open spec fn as_bool(self) -> Option<bool> {
        match self {
            JsonView::Bool(b) => Some(b),
            _ => None,
        }
    }

    /// The number, where this is one that is an unsigned integer.
    pub open spec fn as_u64(self) -> Option<u64> {
        match self {
            JsonView::Number(NumberView::Unsigned(n)) => Some(n),
            _ => None,
        }
    }

    /// The text of the member named `key`, where there is such a member and it
    /// is a string.
    pub open spec fn get_str(self, key: Seq<char>) -> Option<Seq<char>> {
        match self.get(key) {
            Some(member) => member.as_str(),
            None => None,
        }
    }
}

/// A JSON number.
#[derive(Debug, PartialEq)]
pub enum JsonNumber {
    /// An integer from zero up.
    Unsigned(u64),
    /// An integer below zero.
    Negative(i64),
    /// Any other number, by its decimal text.
    Float(String),
}

impl View for JsonNumber {
    type V = NumberView;

    open spec fn view(&self) -> NumberView {
        match *self {
            JsonNumber::Unsigned(n) => NumberView::Unsigned(n),
            JsonNumber::Negative(n) => NumberView::Negative(n),
            JsonNumber::Float(text) => NumberView::Float(text@),
        }
    }
}

impl Clone for JsonNumber {
    fn clone(&self) -> (r: Self)
        ensures
            r == *self,
    {
        match self {
            JsonNumber::Unsigned(n) => JsonNumber::Unsigned(*n),
            JsonNumber::Negative(n) => JsonNumber::Negative(*n),
            JsonNumber::Float(text) => JsonNumber::Float(text.clone()),
        }
    }
}

/// A JSON document.
#[derive(Debug, PartialEq)]
pub enum Json {
    Null,
    Bool(bool),
    Number(JsonNumber),
    String(String),
    Array(Vec<Json>),
    /// The members of an object; of two entries with one key the later counts.
    Object(Vec<(String, Json)>),
}

/// The document that a `Json` stands for.
pub open spec fn json_view(json: Json) -> JsonView
    decreases json,
{
    match json {
        Json::Null => JsonView::Null,
        Json::Bool(b) => JsonView::Bool(b),
        Json::Number(n) => JsonView::Number(n@),
        Json::String(s) => JsonView::String(s@),
        Json::Array(items) => JsonView::Array(items_view(items@)),
        Json::Object(entries) => JsonView::Object(entries_view(entries@)),
    }
}

/// The documents that a list stands for, in its order.
pub open spec fn items_view(items: Seq<Json>) -> Seq<JsonView>
    decreases items,
{
    if items.len() == 0 {
        Seq::empty()
    } else {
        items_view(items.drop_last()).push(json_view(items.last()))
    }
}

/// The members that a list of entries gives.
pub open spec fn entries_view(entries: Seq<(String, Json)>) -> Map<Seq<char>, JsonView>
    decreases entries,
{
    if entries.len() == 0 {
        Map::empty()
    } else {
        entries_view(entries.drop_last()).insert(entries.last().0@, json_view(entries.last().1))
    }
}

impl View for Json {
    type V = JsonView;

    open spec fn view(&self) -> JsonView {
        json_view(*self)
    }
}

/// Element by element, a list stands for what its elements stand for.
pub proof fn lemma_items_view(items: Seq<Json>)
    ensures
        items_view(items).len() == items.len(),
        forall|i: int| 0 <= i < items.len() ==> #[trigger] items_view(items)[i] == json_view(items[i]),
    decreases items,
{
    if items.len() > 0 {
        let front = items.drop_last();
        lemma_items_view(front);
        assert forall|i: int| 0 <= i < items.len() implies #[trigger] items_view(items)[i] == json_view(items[i]) by {
            if i < front.len() {
                assert(items_view(front)[i] == json_view(front[i]));
            }
        }
    }
}

/// Whether every number in a document is an integer, filed under its sign.
pub open spec fn printable(json: Json) -> bool
    decreases json,
{
    match json {
        Json::Number(JsonNumber::Negative(n)) => n < 0,
        Json::Number(JsonNumber::Float(_)) => false,
        Json::Array(items) => forall|i: int| 0 <= i < items@.len() ==> printable(#[trigger] items@[i]),
        Json::Object(entries) => forall|i: int| 0 <= i < entries@.len() ==> printable((#[trigger] entries@[i]).1),
        _ => true,
    }
}

impl Json {
    /// The object without members.
    pub fn object() -> (r: Json)
        ensures
            r@ == JsonView::object(),
            printable(r),
    {
        Json::Object(Vec::new())
    }

    /// The string that holds `text`.
    pub fn string(text: &str) -> (r: Json)
        ensures
            r@ == JsonView::String(text@),
            printable(r),
    {
        Json::String(text.to_string())
    }

    /// The array of one element.
    pub fn singleton(item: Json) -> (r: Json)
        ensures
            r@ == JsonView::Array(seq![item@]),
            printable(item) ==> printable(r),
    {
        let ghost view = item@;
        let mut items: Vec<Json> = Vec::new();
        items.push(item);
        proof {
            reveal_with_fuel(items_view, 2);
            assert(items_view(items@) == seq![view]);
        }
        Json::Array(items)
    }

    /// The unsigned integer `n`.
    pub fn unsigned(n: u64) -> (r: Json)
        ensures
            r@ == JsonView::integer(n as int),
            printable(r),
    {
        Json::Number(JsonNumber::Unsigned(n))
    }

    /// The integer `n`.
    pub fn signed(n: i64) -> (r: Json)
        ensures
            r@ == JsonView::integer(n as int),
            printable(r),
    {
        if n < 0 {
            Json::Number(JsonNumber::Negative(n))
        } else {
            Json::Number(JsonNumber::Unsigned(n as u64))
        }
    }

    /// An object with one member more, or with that member replaced. What is no
    /// object stays as it is.
    pub fn with(self, key: &str, value: Json) -> (r: Json)
        ensures
            r@ == self@.with(key@, value@),
            printable(self) && printable(value) ==> printable(r),
    {
        match self {
            Json::Object(entries) => {
                let mut entries: Vec<(String, Json)> = entries;
                let ghost before = entries@;
                entries.push((key.to_string(), value));
                proof {
                    assert(entries@.drop_last() == before);
                }
                Json::Object(entries)
            },
            other => other,
        }
    }

    /// The member named `key`, where this is an object that has one.
    pub fn get(&self, key: &str) -> (r: Option<&Json>)
        ensures
            match r {
                Some(member) => self@.get(key@) == Some(member@),
                None => self@.get(key@) is None,
            },
    {
        match self {
            Json::Object(entries) => {
                let mut i: usize = entries.len();
                proof {
                    assert(entries@.take(i as int) == entries@);
                }
                while i > 0
                    invariant
                        i <= entries@.len(),
                        self@ == JsonView::Object(entries_view(entries@)),
                        self@.get(key@) == JsonView::Object(entries_view(entries@.take(i as int))).get(key@),
                    decreases i,
                {
                    i = i - 1;
                    proof {
                        assert(entries@.take(i + 1).drop_last() == entries@.take(i as int));
                    }
                    if same_text(entries[i].0.as_str(), key) {
                        return Some(&entries[i].1);
                    }
                }
                None
            },
            _ => None,
        }
    }

    /// The member named `key`, taken out of the object that has it.
    pub fn into_member(self, key: &str) -> (r: Option<Json>)
        ensures
            match r {
                Some(member) => self@.get(key@) == Some(member@),
                None => self@.get(key@) is None,
            },
    {
        let ghost whole = self@;
        match self {
            Json::Object(entries) => {
                let mut entries: Vec<(String, Json)> = entries;
                loop
                    invariant
                        whole == self@,
                        whole.get(key@) == JsonView::Object(entries_view(entries@)).get(key@),
                    decreases entries@.len(),
                {
                    let ghost before = entries@;
                    match entries.pop() {
                        Some((name, member)) => {
                            proof {
                                assert(before.drop_last() == entries@);
                            }
                            if same_text(name.as_str(), key) {
                                return Some(member);
                            }
                        },
                        None => {
                            return None;
                        },
                    }
                }
            },
            _ => None,
        }
    }

    /// The text, where this is a string.
    pub fn as_str(&self) -> (r: Option<&str>)
        ensures
            match r {
                Some(text) => self@.as_str() == Some(text@),
                None => self@.as_str() is None,
            },
    {
        match self {
            Json::String(text) => Some(text.as_str()),
            _ => None,
        }
    }

    /// The truth value, where this is one.
    pub fn as_bool(&self) -> (r: Option<bool>)
        ensures
            r == self@.as_bool(),
    {
        match self {
            Json::Bool(b) => Some(*b),
            _ => None,
        }
    }

    /// The number, where this is one that is an unsigned integer.
    pub fn as_u64(&self) -> (r: Option<u64>)
        ensures
            r == self@.as_u64(),
    {
        match self {
            Json::Number(JsonNumber::Unsigned(n)) => Some(*n),
            _ => None,
        }
    }

    /// The text of the member named `key`, where there is such a member and it
    /// is a string.
    pub fn get_str(&self, key: &str) -> (r: Option<&str>)
        ensures
            match r {
                Some(text) => self@.get_str(key@) == Some(text@),
                None => self@.get_str(key@) is None,
            },
    {
        match self.get(key) {
            Some(member) => member.as_str(),
            None => None,
        }
    }

    /// A copy of the document.
    fn copy(&self) -> (r: Json)
        ensures
            r@ == self@,
        decreases self,
    {
        match self {
            Json::Null => Json::Null,
            Json::Bool(b) => Json::Bool(*b),
            Json::Number(n) => Json::Number(n.clone()),
            Json::String(s) => Json::String(s.clone()),
            Json::Array(items) => {
                let mut copies: Vec<Json> = Vec::new();
                let mut i: usize = 0;
                proof {
                    assert(items@.take(0) == Seq::<Json>::empty());
                }
                while i < items.len()
                    invariant
                        i <= items@.len(),
                        *self == Json::Array(*items),
                        items_view(copies@) == items_view(items@.take(i as int)),
                    decreases items@.len() - i,
                {
                    proof {
                        assert(decreases_to!(*self => self->Array_0));
                        assert(decreases_to!(items => items@));
                        assert(decreases_to!(items@ => items@[i as int]));
                    }
                    let ghost before = copies@;
                    copies.push(items[i].copy());
                    i = i + 1;
                    proof {
                        assert(copies@.drop_last() == before);
                        assert(items@.take(i as int).drop_last() == items@.take(i - 1));
                    }
                }
                proof {
                    assert(items@.take(i as int) == items@);
                }
                Json::Array(copies)
            },
            Json::Object(entries) => {
                let mut copies: Vec<(String, Json)> = Vec::new();
                let mut i: usize = 0;
                proof {
                    assert(entries@.take(0) == Seq::<(String, Json)>::empty());
                }
                while i < entries.len()
                    invariant
                        i <= entries@.len(),
                        *self == Json::Object(*entries),
                        entries_view(copies@) == entries_view(entries@.take(i as int)),
                    decreases entries@.len() - i,
                {
                    proof {
                        assert(decreases_to!(*self => self->Object_0));
                        assert(decreases_to!(entries => entries@));
                        assert(decreases_to!(entries@ => entries@[i as int]));
                        assert(decreases_to!(entries@[i as int] => entries@[i as int].1));
                    }
                    let ghost before = copies@;
                    copies.push((entries[i].0.clone(), entries[i].1.copy()));
                    i = i + 1;
                    proof {
                        assert(copies@.drop_last() == before);
                        assert(entries@.take(i as int).drop_last() == entries@.take(i - 1));
                    }
                }
                proof {
                    assert(entries@.take(i as int) == entries@);
                }
                Json::Object(copies)
            },
        }
    }
}

impl Clone for Json {
    fn clone(&self) -> (r: Self)
        ensures
            r@ == self@,
    {
        self.copy()
    }
}

/// A member that is put into an object is found under its name, and every other
/// name finds what it found before. What is no object has no members.
pub proof fn lemma_member_is_found(members: Map<Seq<char>, JsonView>, key: Seq<char>, value: JsonView, other: Seq<char>)
    ensures
        JsonView::Object(members).with(key, value).get(key) == Some(value),
        other != key ==> JsonView::Object(members).with(key, value).get(other) == JsonView::Object(members).get(
            other,
        ),
        members.dom().contains(key) ==> JsonView::Object(members).get(key) == Some(members[key]),
        !members.dom().contains(key) ==> JsonView::Object(members).get(key) is None,
        JsonView::object().get(key) is None,
        !(value is Object) ==> value.get(key) is None,
{
}

/// A document is read as what it is and as nothing else.
pub proof fn lemma_document_is_read_as_it_is(json: JsonView, key: Seq<char>, text: Seq<char>, b: bool, n: u64)
    ensures
        json.as_str() == Some(text) <==> json == JsonView::String(text),
        json.as_bool() == Some(b) <==> json == JsonView::Bool(b),
        json.as_u64() == Some(n) <==> json == JsonView::Number(NumberView::Unsigned(n)),
        json.get_str(key) == Some(text) <==> json.get(key) == Some(JsonView::String(text)),
        JsonView::integer(n as int).as_u64() == Some(n),
{
}

/// A negative integer is kept as such.
pub proof fn lemma_negative_integer(n: i64)
    requires
        n < 0,
    ensures
        JsonView::integer(n as int) == JsonView::Number(NumberView::Negative(n)),
{
}

/// What the library's own tree of a document stands for: every kind of value for
/// itself, a list for its elements in their order, and an object for its
/// entries, of which the later one counts where two have one name.
pub proof fn lemma_tree_stands_for_document(
    b: bool,
    number: JsonNumber,
    text: String,
    items: Seq<Json>,
    entries: Seq<(String, Json)>,
    last: Json,
)
    ensures
        json_view(Json::Null) == JsonView::Null,
        json_view(Json::Bool(b)) == JsonView::Bool(b),
        json_view(Json::Number(number)) == JsonView::Number(number@),
        json_view(Json::String(text)) == JsonView::String(text@),
        number matches JsonNumber::Unsigned(n) ==> number@ == NumberView::Unsigned(n),
        number matches JsonNumber::Negative(n) ==> number@ == NumberView::Negative(n),
        number matches JsonNumber::Float(f) ==> number@ == NumberView::Float(f@),
        items_view(items.push(last)) == items_view(items).push(json_view(last)),
        items_view(Seq::empty()) == Seq::<JsonView>::empty(),
        entries_view(entries.push((text, last))) == entries_view(entries).insert(text@, json_view(last)),
        entries_view(Seq::empty()) == Map::<Seq<char>, JsonView>::empty(),
{
    assert(items.push(last).drop_last() == items);
    assert(entries.push((text, last)).drop_last() == entries);
}

} // verus!

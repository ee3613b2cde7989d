//! A JSON document model: the values that results, help documents and stream
//! events are made of before they are printed.
use vstd::prelude::*;
use crate::text::{int_decimal, nat_decimal, owned, digit_char, push_char, views};

verus! {

/// A JSON value; a number keeps the decimal text it is written with, an object
/// keeps its entries in insertion order.
#[derive(Debug, PartialEq, Eq)]
pub enum JsonValue {
    Null,
    Bool(bool),
    Number(String),
    Str(String),
    Array(Vec<JsonValue>),
    Object(Vec<(String, JsonValue)>),
}

/// The mathematical form of a JSON value.
#[verifier::ext_equal]
pub ghost enum Json {
    Null,
    Bool(bool),
    Number(Seq<char>),
    Str(Seq<char>),
    Array(Seq<Json>),
    Object(Seq<(Seq<char>, Json)>),
}

/// The mathematical form of a value.
pub open spec fn jv(v: JsonValue) -> Json
    decreases v,
{
    match v {
        JsonValue::Null => Json::Null,
        JsonValue::Bool(b) => Json::Bool(b),
        JsonValue::Number(n) => Json::Number(n@),
        JsonValue::Str(s) => Json::Str(s@),
        JsonValue::Array(items) => Json::Array(items_view(items@)),
        JsonValue::Object(entries) => Json::Object(entries_view(entries@)),
    }
}

/// The mathematical form of a sequence of values.
pub open spec fn items_view(items: Seq<JsonValue>) -> Seq<Json>
    decreases items,
{
    if items.len() == 0 {
        Seq::empty()
    } else {
        items_view(items.drop_last()).push(jv(items.last()))
    }
}

/// The mathematical form of a sequence of object entries.
pub open spec fn entries_view(entries: Seq<(String, JsonValue)>) -> Seq<(Seq<char>, Json)>
    decreases entries,
{
    if entries.len() == 0 {
        Seq::empty()
    } else {
        entries_view(entries.drop_last()).push((entries.last().0@, jv(entries.last().1)))
    }
}

/// `items_view` maps element by element.
pub broadcast proof fn lemma_items_view(items: Seq<JsonValue>)
    ensures
        #[trigger] items_view(items).len() == items.len(),
        forall|i: int| 0 <= i < items.len() ==> items_view(items)[i] == jv(#[trigger] items[i]),
    decreases items.len(),
{
    if items.len() > 0 {
        lemma_items_view(items.drop_last());
        assert forall|i: int| 0 <= i < items.len() implies items_view(items)[i] == jv(
            #[trigger] items[i],
        ) by {
            if i < items.len() - 1 {
                assert(items[i] == items.drop_last()[i]);
            }
        }
    }
}

/// `entries_view` maps entry by entry.
pub broadcast proof fn lemma_entries_view(entries: Seq<(String, JsonValue)>)
    ensures
        #[trigger] entries_view(entries).len() == entries.len(),
        forall|i: int|
            0 <= i < entries.len() ==> entries_view(entries)[i] == (
                #[trigger] entries[i].0@,
                jv(entries[i].1),
            ),
    decreases entries.len(),
{
    if entries.len() > 0 {
        lemma_entries_view(entries.drop_last());
        assert forall|i: int| 0 <= i < entries.len() implies entries_view(entries)[i] == (
            #[trigger] entries[i].0@,
            jv(entries[i].1),
        ) by {
            if i < entries.len() - 1 {
                assert(entries[i] == entries.drop_last()[i]);
            }
        }
    }
}

/// `items_view` of a pushed sequence.
pub proof fn lemma_items_view_push(items: Seq<JsonValue>, x: JsonValue)
    ensures
        items_view(items.push(x)) == items_view(items).push(jv(x)),
{
    assert(items.push(x).drop_last() =~= items);
}

/// `entries_view` of a pushed sequence.
pub proof fn lemma_entries_view_push(entries: Seq<(String, JsonValue)>, k: String, x: JsonValue)
    ensures
        entries_view(entries.push((k, x))) == entries_view(entries).push((k@, jv(x))),
{
    assert(entries.push((k, x)).drop_last() =~= entries);
}

/// `entries_view` of an updated sequence.
pub proof fn lemma_entries_view_update(entries: Seq<(String, JsonValue)>, i: int, k: String, x: JsonValue)
    requires
        0 <= i < entries.len(),
    ensures
        entries_view(entries.update(i, (k, x))) == entries_view(entries).update(i, (k@, jv(x))),
{
    let u = entries.update(i, (k, x));
    lemma_entries_view(entries);
    lemma_entries_view(u);
    assert forall|j: int| 0 <= j < u.len() implies entries_view(u)[j] == entries_view(entries).update(i, (k@, jv(x)))[j] by {
        assert(entries_view(u)[j] == (u[j].0@, jv(u[j].1)));
        if j != i {
            assert(u[j] == entries[j]);
            assert(entries_view(entries)[j] == (entries[j].0@, jv(entries[j].1)));
        }
    }
    assert(entries_view(u) =~= entries_view(entries).update(i, (k@, jv(x))));
}

impl View for JsonValue {
    type V = Json;

    open spec fn view(&self) -> Json {
        jv(*self)
    }
}

/// Decimal text of a natural number.
pub fn u64_decimal(n: u64) -> (r: String)
    ensures
        r@ == nat_decimal(n as nat),
    decreases n,
{
    if n < 10 {
        let mut s = String::new();
        push_char(&mut s, digit_of(n));
        assert(s@ =~= seq![digit_char(n as nat)]);
        s
    } else {
        let mut s = u64_decimal(n / 10);
        push_char(&mut s, digit_of(n % 10));
        s
    }
}

/// The character of one decimal digit.
pub fn digit_of(d: u64) -> (c: char)
    requires
        d < 10,
    ensures
        c == digit_char(d as nat),
{
    if d == 0 { '0' }
    else if d == 1 { '1' }
    else if d == 2 { '2' }
    else if d == 3 { '3' }
    else if d == 4 { '4' }
    else if d == 5 { '5' }
    else if d == 6 { '6' }
    else if d == 7 { '7' }
    else if d == 8 { '8' }
    else { '9' }
}

/// Decimal text of an integer, as `Display` writes it.
pub fn i64_decimal(n: i64) -> (r: String)
    ensures
        r@ == int_decimal(n as int),
{
    if n < 0 {
        let magnitude: u64 = if n == i64::MIN {
            9223372036854775808u64
        } else {
            (-n) as u64
        };
        let digits = u64_decimal(magnitude);
        let mut s = owned("-");
        s.append(digits.as_str());
        proof {
            reveal_strlit("-");
        }
        assert(s@ =~= seq!['-'] + nat_decimal((-n) as nat));
        s
    } else {
        u64_decimal(n as u64)
    }
}

impl JsonValue {
    /// A string value holding a copy of `s`.
    pub fn string(s: &str) -> (r: JsonValue)
        ensures
            r@ == Json::Str(s@),
    {
        JsonValue::Str(owned(s))
    }

    /// A string value, or null when absent.
    pub fn opt_string(s: &Option<String>) -> (r: JsonValue)
        ensures
            r@ == match *s {
                Some(t) => Json::Str(t@),
                None => Json::Null,
            },
    {
        match s {
            Some(t) => JsonValue::string(t.as_str()),
            None => JsonValue::Null,
        }
    }

    /// A number value holding an integer.
    pub fn integer(n: i64) -> (r: JsonValue)
        ensures
            r@ == Json::Number(int_decimal(n as int)),
    {
        JsonValue::Number(i64_decimal(n))
    }

    /// A number value holding a natural number.
    pub fn natural(n: u64) -> (r: JsonValue)
        ensures
            r@ == Json::Number(nat_decimal(n as nat)),
    {
        JsonValue::Number(u64_decimal(n))
    }

    /// A number value, or null when absent.
    pub fn opt_int(n: Option<i64>) -> (r: JsonValue)
        ensures
            r@ == match n {
                Some(k) => Json::Number(int_decimal(k as int)),
                None => Json::Null,
            },
    {
        match n {
            Some(k) => JsonValue::integer(k),
            None => JsonValue::Null,
        }
    }

    /// An empty object.
    pub fn empty_object() -> (r: JsonValue)
        ensures
            r@ == Json::Object(Seq::empty()),
    {
        let v: Vec<(String, JsonValue)> = Vec::new();
        let r = JsonValue::Object(v);
        assert(entries_view(v@) =~= Seq::empty());
        r
    }

    /// A copy of the value.
    pub fn duplicate(&self) -> (r: JsonValue)
        ensures
            r@ == self@,
        decreases self,
    {
        match self {
            JsonValue::Null => JsonValue::Null,
            JsonValue::Bool(b) => JsonValue::Bool(*b),
            JsonValue::Number(n) => JsonValue::Number(owned(n.as_str())),
            JsonValue::Str(s) => JsonValue::Str(owned(s.as_str())),
            JsonValue::Array(items) => {
                let mut out: Vec<JsonValue> = Vec::new();
                let mut i: usize = 0;
                while i < items.len()
                    invariant
                        *self == JsonValue::Array(*items),
                        i <= items@.len(),
                        items_view(out@) == items_view(items@.subrange(0, i as int)),
                    decreases items@.len() - i,
                {
                    proof {
                        assert(decreases_to!(*self => self->Array_0));
                        assert(decreases_to!(*items => items@));
                        assert(decreases_to!(items@ => items@[i as int]));
                    }
                    let c = items[i].duplicate();
                    proof {
                        lemma_items_view_push(out@, c);
                        lemma_items_view_push(items@.subrange(0, i as int), items@[i as int]);
                        assert(items@.subrange(0, i as int).push(items@[i as int])
                            =~= items@.subrange(0, i + 1));
                    }
                    out.push(c);
                    i = i + 1;
                }
                assert(items@.subrange(0, items@.len() as int) =~= items@);
                JsonValue::Array(out)
            },
            JsonValue::Object(entries) => {
                let mut out: Vec<(String, JsonValue)> = Vec::new();
                let mut i: usize = 0;
                while i < entries.len()
                    invariant
                        *self == JsonValue::Object(*entries),
                        i <= entries@.len(),
                        entries_view(out@) == entries_view(entries@.subrange(0, i as int)),
                    decreases entries@.len() - i,
                {
                    proof {
                        assert(decreases_to!(*self => self->Object_0));
                        assert(decreases_to!(*entries => entries@));
                        assert(decreases_to!(entries@ => entries@[i as int]));
                        assert(decreases_to!(entries@[i as int] => entries@[i as int].1));
                    }
                    let c = entries[i].1.duplicate();
                    let k = owned(entries[i].0.as_str());
                    proof {
                        lemma_entries_view_push(out@, k, c);
                        lemma_entries_view_push(
                            entries@.subrange(0, i as int),
                            entries@[i as int].0,
                            entries@[i as int].1,
                        );
                        assert(entries@.subrange(0, i as int).push(
                            (entries@[i as int].0, entries@[i as int].1),
                        ) =~= entries@.subrange(0, i + 1));
                    }
                    out.push((k, c));
                    i = i + 1;
                }
                assert(entries@.subrange(0, entries@.len() as int) =~= entries@);
                JsonValue::Object(out)
            },
        }
    }
}

/// An entry that is left out when the text is absent.
pub open spec fn opt_entry(key: Seq<char>, value: Option<String>) -> Seq<(Seq<char>, Json)> {
    match value {
        Some(t) => seq![(key, Json::Str(t@))],
        None => Seq::empty(),
    }
}

/// An array of strings.
pub open spec fn str_list(items: Seq<Seq<char>>) -> Json {
    Json::Array(Seq::new(items.len(), |i: int| Json::Str(items[i])))
}

/// An entry holding a list of strings, left out when the list is empty.
pub open spec fn nonempty_entry(key: Seq<char>, items: Seq<Seq<char>>) -> Seq<(Seq<char>, Json)> {
    if items.len() == 0 {
        Seq::empty()
    } else {
        seq![(key, str_list(items))]
    }
}

/// An entry holding an optional value, left out when absent.
pub open spec fn some_entry(key: Seq<char>, value: Option<Json>) -> Seq<(Seq<char>, Json)> {
    match value {
        Some(v) => seq![(key, v)],
        None => Seq::empty(),
    }
}

impl JsonValue {
    /// An array holding a copy of each string.
    pub fn strings(v: &Vec<String>) -> (r: JsonValue)
        ensures
            r@ == str_list(views(v@)),
    {
        let mut out: Vec<JsonValue> = Vec::new();
        let mut i: usize = 0;
        while i < v.len()
            invariant
                i <= v@.len(),
                items_view(out@) == Seq::new(i as nat, |k: int| Json::Str(v@[k]@)),
            decreases v@.len() - i,
        {
            let x = JsonValue::string(v[i].as_str());
            proof {
                lemma_items_view_push(out@, x);
            }
            out.push(x);
            i = i + 1;
            assert(items_view(out@) =~= Seq::new(i as nat, |k: int| Json::Str(v@[k]@)));
        }
        let r = JsonValue::Array(out);
        assert(items_view(out@) =~= Seq::new(views(v@).len(), |k: int| Json::Str(views(v@)[k])));
        r
    }
}

/// Builds an object entry by entry.
pub struct ObjectBuilder {
    pub entries: Vec<(String, JsonValue)>,
}

impl ObjectBuilder {
    /// An object with no entries yet.
    pub fn new() -> (r: ObjectBuilder)
        ensures
            entries_view(r.entries@) == Seq::<(Seq<char>, Json)>::empty(),
    {
        let r = ObjectBuilder { entries: Vec::new() };
        assert(entries_view(r.entries@) =~= Seq::empty());
        r
    }

    /// Appends the entry `key: value`.
    pub fn field(&mut self, key: &str, value: JsonValue)
        ensures
            entries_view(final(self).entries@) == entries_view(old(self).entries@).push(
                (key@, value@),
            ),
    {
        let k = owned(key);
        proof {
            lemma_entries_view_push(self.entries@, k, value);
        }
        self.entries.push((k, value));
    }

    /// Appends `key: text` when the text is present.
    pub fn field_opt(&mut self, key: &str, value: &Option<String>)
        ensures
            entries_view(final(self).entries@) == entries_view(old(self).entries@) + opt_entry(key@, *value),
    {
        match value {
            Some(t) => {
                self.field(key, JsonValue::string(t.as_str()));
            },
            None => {
                assert(entries_view(self.entries@) + opt_entry(key@, *value) =~= entries_view(self.entries@));
            },
        }
    }

    /// Appends `key: [..]` when the list is not empty.
    pub fn field_nonempty(&mut self, key: &str, items: &Vec<String>)
        ensures
            entries_view(final(self).entries@) == entries_view(old(self).entries@) + nonempty_entry(key@, views(items@)),
    {
        if items.len() > 0 {
            self.field(key, JsonValue::strings(items));
        } else {
            assert(entries_view(self.entries@) + nonempty_entry(key@, views(items@)) =~= entries_view(self.entries@));
        }
    }

    /// Appends `key: value` when the value is present.
    pub fn field_some(&mut self, key: &str, value: Option<JsonValue>)
        ensures
            entries_view(final(self).entries@) == entries_view(old(self).entries@) + some_entry(
                key@,
                match value {
                    Some(v) => Some(v@),
                    None => None,
                },
            ),
    {
        match value {
            Some(v) => {
                self.field(key, v);
            },
            None => {
                assert(entries_view(self.entries@) + Seq::<(Seq<char>, Json)>::empty() =~= entries_view(self.entries@));
            },
        }
    }

    /// The object built so far.
    pub fn build(self) -> (r: JsonValue)
        ensures
            r@ == Json::Object(entries_view(self.entries@)),
    {
        JsonValue::Object(self.entries)
    }
}

} // verus!

//! The library's model of a JSON value.
//!
//! The control plane and the tool protocol move JSON documents around; the
//! logic that reads and builds them works on this type, whose every part is
//! plain data.  An integer is held as an `i64`; a number that is not an
//! integer is carried through uninterpreted, as its decimal text, so a value
//! the logic never looks into survives a round trip unchanged.  An object is
//! a field list in order; a lookup takes the first binding of a key.

use vstd::prelude::*;

verus! {

/// One JSON value, as the library models it.
pub enum Json {
    Null,
    Bool(bool),
    Int(i64),
    /// A number with a fractional part or out of `i64` range, as its
    /// original decimal text, carried through uninterpreted.
    Num(String),
    Str(String),
    Arr(Vec<Json>),
    Obj(Vec<(String, Json)>),
}

/// The mathematical value of a `Json` document.
#[verifier::ext_equal]
pub enum JsonView {
    Null,
    Bool(bool),
    Int(i64),
    Num(Seq<char>),
    Str(Seq<char>),
    Arr(Seq<JsonView>),
    Obj(Seq<(Seq<char>, JsonView)>),
}

impl View for Json {
    type V = JsonView;

    open spec fn view(&self) -> JsonView
        decreases self,
    {
        match self {
            Json::Null => JsonView::Null,
            Json::Bool(b) => JsonView::Bool(*b),
            Json::Int(n) => JsonView::Int(*n),
            Json::Num(s) => JsonView::Num(s@),
            Json::Str(s) => JsonView::Str(s@),
            Json::Arr(items) => JsonView::Arr(items_view(items@)),
            Json::Obj(fields) => JsonView::Obj(fields_view(fields@)),
        }
    }
}

/// The values of an array's items, in order.
pub open spec fn items_view(items: Seq<Json>) -> Seq<JsonView>
    decreases items,
{
    if items.len() == 0 {
        Seq::empty()
    } else {
        seq![items[0]@] + items_view(items.subrange(1, items.len() as int))
    }
}

/// The values of an object's field list, in order.
pub open spec fn fields_view(fields: Seq<(String, Json)>) -> Seq<(Seq<char>, JsonView)>
    decreases fields,
{
    if fields.len() == 0 {
        Seq::empty()
    } else {
        seq![(fields[0].0@, fields[0].1@)] + fields_view(
            fields.subrange(1, fields.len() as int),
        )
    }
}

/// An array's value has one item value per item, in place.
pub broadcast proof fn lemma_items_view(items: Seq<Json>)
    ensures
        (#[trigger] items_view(items)).len() == items.len(),
        forall|i: int| 0 <= i < items.len() ==> items_view(items)[i] == items[i]@,
    decreases items.len(),
{
    if items.len() == 0 {
        assert(items_view(items) =~= Seq::<JsonView>::empty());
    } else {
        let rest = items.subrange(1, items.len() as int);
        lemma_items_view(rest);
        assert(items_view(items) == seq![items[0]@] + items_view(rest));
        assert forall|i: int| 0 <= i < items.len() implies items_view(items)[i]
            == items[i]@ by {
            if i > 0 {
                assert(items_view(items)[i] == items_view(rest)[i - 1]);
                assert(rest[i - 1] == items[i]);
            }
        }
    }
}

/// An object's value has one field value per field, in place.
pub broadcast proof fn lemma_fields_view(fields: Seq<(String, Json)>)
    ensures
        (#[trigger] fields_view(fields)).len() == fields.len(),
        forall|i: int|
            0 <= i < fields.len() ==> fields_view(fields)[i] == (fields[i].0@, fields[i].1@),
    decreases fields.len(),
{
    if fields.len() == 0 {
        assert(fields_view(fields) =~= Seq::<(Seq<char>, JsonView)>::empty());
    } else {
        let rest = fields.subrange(1, fields.len() as int);
        lemma_fields_view(rest);
        assert(fields_view(fields) == seq![(fields[0].0@, fields[0].1@)] + fields_view(rest));
        assert forall|i: int| 0 <= i < fields.len() implies fields_view(fields)[i] == (
            fields[i].0@,
            fields[i].1@,
        ) by {
            if i > 0 {
                assert(fields_view(fields)[i] == fields_view(rest)[i - 1]);
                assert(rest[i - 1] == fields[i]);
            }
        }
    }
}

/// The first binding of `key` in an object's field list, if any.
pub open spec fn lookup_field(fields: Seq<(Seq<char>, JsonView)>, key: Seq<char>) -> Option<
    JsonView,
>
    decreases fields.len(),
{
    if fields.len() == 0 {
        None
    } else if fields[0].0 == key {
        Some(fields[0].1)
    } else {
        lookup_field(fields.skip(1), key)
    }
}

/// What looking a key up in a document yields: the first binding where the
/// document is an object that has the key, nothing otherwise.
pub open spec fn spec_get(v: JsonView, key: Seq<char>) -> Option<JsonView> {
    match v {
        JsonView::Obj(fields) => lookup_field(fields, key),
        _ => None,
    }
}

impl Json {
    /// The value of `key` where this document is an object that binds it;
    /// nothing where it is missing or the document is no object.
    pub fn get(&self, key: &str) -> (r: Option<&Json>)
        ensures
            match r {
                Some(v) => spec_get(self@, key@) == Some(v@),
                None => spec_get(self@, key@) is None,
            },
    {
        match self {
            Json::Obj(fields) => {
                proof {
                    lemma_fields_view(fields@);
                    assert(fields_view(fields@).skip(0) =~= fields_view(fields@));
                }
                let n = fields.len();
                let mut i: usize = 0;
                while i < n
                    invariant
                        n == fields@.len(),
                        i <= n,
                        self@ == JsonView::Obj(fields_view(fields@)),
                        spec_get(self@, key@) == lookup_field(
                            fields_view(fields@).skip(i as int),
                            key@,
                        ),
                    decreases n - i,
                {
                    let ghost fs = fields_view(fields@);
                    proof {
                        lemma_fields_view(fields@);
                        assert(fs.skip(i as int)[0] == fs[i as int]);
                    }
                    if crate::text::str_eq(fields[i].0.as_str(), key) {
                        return Some(&fields[i].1);
                    }
                    proof {
                        assert(fs.skip(i as int).skip(1) =~= fs.skip(i as int + 1));
                    }
                    i = i + 1;
                }
                proof {
                    lemma_fields_view(fields@);
                    assert(fields_view(fields@).skip(i as int).len() == 0);
                }
                None
            },
            _ => None,
        }
    }

    /// The characters of this document where it is a string, nothing
    /// otherwise.
    pub fn as_str(&self) -> (r: Option<&String>)
        ensures
            match r {
                Some(s) => self@ == JsonView::Str(s@),
                None => !(self@ is Str),
            },
    {
        match self {
            Json::Str(s) => Some(s),
            _ => None,
        }
    }

    /// The integer this document holds where it is one, nothing otherwise.
    pub fn as_int(&self) -> (r: Option<i64>)
        ensures
            match r {
                Some(n) => self@ == JsonView::Int(n),
                None => !(self@ is Int),
            },
    {
        match self {
            Json::Int(n) => Some(*n),
            _ => None,
        }
    }

    /// The truth value this document holds where it is one, nothing
    /// otherwise.
    pub fn as_bool(&self) -> (r: Option<bool>)
        ensures
            match r {
                Some(b) => self@ == JsonView::Bool(b),
                None => !(self@ is Bool),
            },
    {
        match self {
            Json::Bool(b) => Some(*b),
            _ => None,
        }
    }

    /// A copy of this document whose value is the same.
    pub fn duplicate(&self) -> (r: Json)
        ensures
            r@ == self@,
        decreases self, 0int,
    {
        match self {
            Json::Null => Json::Null,
            Json::Bool(b) => Json::Bool(*b),
            Json::Int(n) => Json::Int(*n),
            Json::Num(s) => Json::Num(s.clone()),
            Json::Str(s) => Json::Str(s.clone()),
            Json::Arr(items) => {
                let out = duplicate_items_from(items, 0);
                proof {
                    lemma_items_view(out@);
                    lemma_items_view(items@);
                    assert(items_view(out@) =~= items_view(items@));
                }
                Json::Arr(out)
            },
            Json::Obj(fields) => {
                let out = duplicate_fields_from(fields, 0);
                proof {
                    lemma_fields_view(out@);
                    lemma_fields_view(fields@);
                    assert(fields_view(out@) =~= fields_view(fields@));
                }
                Json::Obj(out)
            },
        }
    }

    /// Whether this document is an object.
    pub fn is_object(&self) -> (r: bool)
        ensures
            r == (self@ is Obj),
    {
        match self {
            Json::Obj(_) => true,
            _ => false,
        }
    }

    /// An empty object.
    pub fn empty_obj() -> (r: Json)
        ensures
            r@ == JsonView::Obj(Seq::<(Seq<char>, JsonView)>::empty()),
    {
        let r = Json::Obj(Vec::new());
        proof {
            assert(fields_view(Seq::<(String, Json)>::empty()) =~= Seq::<(
                Seq<char>,
                JsonView,
            )>::empty());
        }
        r
    }
}

/// Copies the items of an array from position `i` on.
fn duplicate_items_from(items: &Vec<Json>, i: usize) -> (r: Vec<Json>)
    requires
        i <= items@.len(),
    ensures
        r@.len() == items@.len() - i,
        forall|j: int| 0 <= j < r@.len() ==> r@[j]@ == items@[i + j]@,
    decreases *items, items@.len() - i + 1,
{
    if i < items.len() {
        let first = items[i].duplicate();
        let mut rest = duplicate_items_from(items, i + 1);
        rest.insert(0, first);
        rest
    } else {
        Vec::new()
    }
}

/// Copies the fields of an object from position `i` on.
fn duplicate_fields_from(fields: &Vec<(String, Json)>, i: usize) -> (r: Vec<(String, Json)>)
    requires
        i <= fields@.len(),
    ensures
        r@.len() == fields@.len() - i,
        forall|j: int|
            0 <= j < r@.len() ==> r@[j].0@ == fields@[i + j].0@ && r@[j].1@ == fields@[i + j].1@,
    decreases *fields, fields@.len() - i + 1,
{
    if i < fields.len() {
        let key = fields[i].0.clone();
        let val = fields[i].1.duplicate();
        let mut rest = duplicate_fields_from(fields, i + 1);
        rest.insert(0, (key, val));
        rest
    } else {
        Vec::new()
    }
}

/// A string document.
pub fn jstr(s: &str) -> (r: Json)
    ensures
        r@ == JsonView::Str(s@),
{
    Json::Str(String::from_str(s))
}

/// A truth-value document.
pub fn jbool(b: bool) -> (r: Json)
    ensures
        r@ == JsonView::Bool(b),
{
    Json::Bool(b)
}

/// An integer document.
pub fn jint(n: i64) -> (r: Json)
    ensures
        r@ == JsonView::Int(n),
{
    Json::Int(n)
}

/// An array document over the given items.
pub fn jarr(items: Vec<Json>) -> (r: Json)
    ensures
        r@ == JsonView::Arr(items_view(items@)),
{
    Json::Arr(items)
}

/// An object document of one field.
pub fn obj1(k1: &str, v1: Json) -> (r: Json)
    ensures
        r@ == JsonView::Obj(seq![(k1@, v1@)]),
{
    let mut fields: Vec<(String, Json)> = Vec::new();
    fields.push((String::from_str(k1), v1));
    proof {
        lemma_fields_view(fields@);
        assert(fields_view(fields@) =~= seq![(k1@, v1@)]);
    }
    Json::Obj(fields)
}

/// An object document of two fields, in order.
pub fn obj2(k1: &str, v1: Json, k2: &str, v2: Json) -> (r: Json)
    ensures
        r@ == JsonView::Obj(seq![(k1@, v1@), (k2@, v2@)]),
{
    let mut fields: Vec<(String, Json)> = Vec::new();
    fields.push((String::from_str(k1), v1));
    fields.push((String::from_str(k2), v2));
    proof {
        lemma_fields_view(fields@);
        assert(fields_view(fields@) =~= seq![(k1@, v1@), (k2@, v2@)]);
    }
    Json::Obj(fields)
}

/// An object document of three fields, in order.
pub fn obj3(k1: &str, v1: Json, k2: &str, v2: Json, k3: &str, v3: Json) -> (r: Json)
    ensures
        r@ == JsonView::Obj(seq![(k1@, v1@), (k2@, v2@), (k3@, v3@)]),
{
    let mut fields: Vec<(String, Json)> = Vec::new();
    fields.push((String::from_str(k1), v1));
    fields.push((String::from_str(k2), v2));
    fields.push((String::from_str(k3), v3));
    proof {
        lemma_fields_view(fields@);
        assert(fields_view(fields@) =~= seq![(k1@, v1@), (k2@, v2@), (k3@, v3@)]);
    }
    Json::Obj(fields)
}

/// An object document of four fields, in order.
pub fn obj4(k1: &str, v1: Json, k2: &str, v2: Json, k3: &str, v3: Json, k4: &str, v4: Json) -> (r:
    Json)
    ensures
        r@ == JsonView::Obj(seq![(k1@, v1@), (k2@, v2@), (k3@, v3@), (k4@, v4@)]),
{
    let mut fields: Vec<(String, Json)> = Vec::new();
    fields.push((String::from_str(k1), v1));
    fields.push((String::from_str(k2), v2));
    fields.push((String::from_str(k3), v3));
    fields.push((String::from_str(k4), v4));
    proof {
        lemma_fields_view(fields@);
        assert(fields_view(fields@) =~= seq![(k1@, v1@), (k2@, v2@), (k3@, v3@), (k4@, v4@)]);
    }
    Json::Obj(fields)
}

} // verus!

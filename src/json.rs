use vstd::prelude::*;

verus! {

broadcast use vstd::std_specs::vec::group_vec_axioms;

/// A JSON document as the library sees it: numbers are kept as their literal text.
#[derive(Debug)]
pub enum Json {
    Null,
    Bool(bool),
    Number(String),
    Str(String),
    Array(Vec<Json>),
    Object(Vec<(String, Json)>),
}

/// Mathematical model of a JSON document.
pub ghost enum JsonV {
    Null,
    Bool(bool),
    Number(Seq<char>),
    Str(Seq<char>),
    Array(Seq<JsonV>),
    Object(Seq<(Seq<char>, JsonV)>),
}

pub open spec fn json_view(j: Json) -> JsonV
    decreases j, 0nat,
{
    match j {
        Json::Null => JsonV::Null,
        Json::Bool(b) => JsonV::Bool(b),
        Json::Number(n) => JsonV::Number(n@),
        Json::Str(s) => JsonV::Str(s@),
        Json::Array(v) => JsonV::Array(items_view(v, v.len() as nat)),
        Json::Object(v) => JsonV::Object(entries_view(v, v.len() as nat)),
    }
}

pub open spec fn items_view(v: Vec<Json>, n: nat) -> Seq<JsonV>
    decreases v, n,
{
    if n == 0 || n > v.len() {
        Seq::empty()
    } else {
        items_view(v, (n - 1) as nat).push(json_view(v[n - 1]))
    }
}

pub open spec fn entries_view(v: Vec<(String, Json)>, n: nat) -> Seq<(Seq<char>, JsonV)>
    decreases v, n,
{
    if n == 0 || n > v.len() {
        Seq::empty()
    } else {
        entries_view(v, (n - 1) as nat).push((v[n - 1].0@, json_view(v[n - 1].1)))
    }
}

impl View for Json {
    type V = JsonV;

    open spec fn view(&self) -> JsonV {
        json_view(*self)
    }
}


/// The models of a sequence of entries, one for one.
pub open spec fn entries_of(s: Seq<(String, Json)>) -> Seq<(Seq<char>, JsonV)> {
    s.map_values(|e: (String, Json)| (e.0@, e.1@))
}

/// The models of a sequence of documents, one for one.
pub open spec fn items_of(s: Seq<Json>) -> Seq<JsonV> {
    s.map_values(|e: Json| e@)
}

/// A sequence of strings as a JSON array of strings.
pub open spec fn strings_json(s: Seq<Seq<char>>) -> JsonV {
    JsonV::Array(s.map_values(|x: Seq<char>| JsonV::Str(x)))
}

/// The value of the first entry named `k`, if any.
pub open spec fn field(es: Seq<(Seq<char>, JsonV)>, k: Seq<char>) -> Option<JsonV>
    decreases es.len(),
{
    if es.len() == 0 {
        None
    } else if es[0].0 == k {
        Some(es[0].1)
    } else {
        field(es.drop_first(), k)
    }
}

/// The entries of an object; `None` for any other kind of document.
pub open spec fn entries(j: JsonV) -> Option<Seq<(Seq<char>, JsonV)>> {
    match j {
        JsonV::Object(es) => Some(es),
        _ => None,
    }
}

/// Reading a field typed as an optional string: absent or `null` gives `Some(None)`,
/// a string gives `Some(Some(s))`, anything else does not decode.
pub open spec fn optional_string(es: Seq<(Seq<char>, JsonV)>, k: Seq<char>) -> Option<Option<Seq<char>>> {
    match field(es, k) {
        None => Some(None),
        Some(JsonV::Null) => Some(None),
        Some(JsonV::Str(s)) => Some(Some(s)),
        Some(_) => None,
    }
}

/// Reading a field typed as a required string.
pub open spec fn required_string(es: Seq<(Seq<char>, JsonV)>, k: Seq<char>) -> Option<Seq<char>> {
    match field(es, k) {
        Some(JsonV::Str(s)) => Some(s),
        _ => None,
    }
}

/// Reading a document typed as a list of strings.
pub open spec fn string_list(j: JsonV) -> Option<Seq<Seq<char>>> {
    match j {
        JsonV::Array(items) => if forall|i: int| 0 <= i < items.len() ==> (#[trigger] items[i]) is Str {
            Some(items.map_values(|x: JsonV| x->Str_0))
        } else {
            None
        },
        _ => None,
    }
}

/// Reading a field typed as a required list of strings.
pub open spec fn required_strings(es: Seq<(Seq<char>, JsonV)>, k: Seq<char>) -> Option<Seq<Seq<char>>> {
    match field(es, k) {
        Some(j) => string_list(j),
        None => None,
    }
}

/// Reading a field typed as an optional list of strings.
pub open spec fn optional_strings(es: Seq<(Seq<char>, JsonV)>, k: Seq<char>) -> Option<Option<Seq<Seq<char>>>> {
    match field(es, k) {
        None => Some(None),
        Some(JsonV::Null) => Some(None),
        Some(j) => match string_list(j) {
            Some(l) => Some(Some(l)),
            None => None,
        },
    }
}

/// An entry `(k, v)` when `v` is present, nothing otherwise.
pub open spec fn optional_entry(k: Seq<char>, v: Option<JsonV>) -> Seq<(Seq<char>, JsonV)> {
    match v {
        Some(x) => seq![(k, x)],
        None => Seq::empty(),
    }
}

/// The recursive view of the first `n` entries is their models, one for one.
pub proof fn lemma_entries_view(v: Vec<(String, Json)>, n: nat)
    requires
        n <= v.len(),
    ensures
        entries_view(v, n) == entries_of(v@.take(n as int)),
    decreases n,
{
    if n > 0 {
        lemma_entries_view(v, (n - 1) as nat);
        assert(v@.take(n as int) =~= v@.take(n - 1).push(v@[n - 1]));
        assert(entries_of(v@.take(n as int)) =~= entries_of(v@.take(n - 1)).push((v[n - 1].0@, v[n - 1].1@)));
    } else {
        assert(entries_of(v@.take(0)) =~= Seq::empty());
    }
}

/// The recursive view of the first `n` items is their models, one for one.
pub proof fn lemma_items_view(v: Vec<Json>, n: nat)
    requires
        n <= v.len(),
    ensures
        items_view(v, n) == items_of(v@.take(n as int)),
    decreases n,
{
    if n > 0 {
        lemma_items_view(v, (n - 1) as nat);
        assert(v@.take(n as int) =~= v@.take(n - 1).push(v@[n - 1]));
        assert(items_of(v@.take(n as int)) =~= items_of(v@.take(n - 1)).push(v[n - 1]@));
    } else {
        assert(items_of(v@.take(0)) =~= Seq::empty());
    }
}

/// The model of an object is the models of its entries.
pub proof fn lemma_object_view(v: Vec<(String, Json)>)
    ensures
        Json::Object(v)@ == JsonV::Object(entries_of(v@)),
{
    lemma_entries_view(v, v.len() as nat);
    assert(v@.take(v.len() as int) =~= v@);
}

/// The model of an array is the models of its items.
pub proof fn lemma_array_view(v: Vec<Json>)
    ensures
        Json::Array(v)@ == JsonV::Array(items_of(v@)),
{
    lemma_items_view(v, v.len() as nat);
    assert(v@.take(v.len() as int) =~= v@);
}


pub open spec fn opt_view(o: Option<String>) -> Option<Seq<char>> {
    match o {
        Some(s) => Some(s@),
        None => None,
    }
}

pub open spec fn strings_of(s: Seq<String>) -> Seq<Seq<char>> {
    s.map_values(|x: String| x@)
}

pub open spec fn opt_strings_view(o: Option<Vec<String>>) -> Option<Seq<Seq<char>>> {
    match o {
        Some(v) => Some(strings_of(v@)),
        None => None,
    }
}

/// Skipping entries whose key differs from `k` does not change the lookup of `k`.
pub proof fn lemma_field_skip(es: Seq<(Seq<char>, JsonV)>, k: Seq<char>, i: int)
    requires
        0 <= i <= es.len(),
        forall|j: int| 0 <= j < i ==> (#[trigger] es[j]).0 != k,
    ensures
        field(es, k) == field(es.skip(i), k),
    decreases i,
{
    if i > 0 {
        let t = es.drop_first();
        assert forall|j: int| 0 <= j < i - 1 implies (#[trigger] t[j]).0 != k by {
            assert(t[j] == es[j + 1]);
        }
        lemma_field_skip(t, k, i - 1);
        assert(t.skip(i - 1) =~= es.skip(i));
    } else {
        assert(es.skip(0) =~= es);
    }
}

/// Looks up the first entry named `key` of an object.
pub fn get_field<'a>(j: &'a Json, key: &String) -> (r: Option<&'a Json>)
    ensures
        entries(j@) is None ==> r is None,
        entries(j@) matches Some(es) ==> match field(es, key@) {
            None => r is None,
            Some(x) => r is Some && r->Some_0@ == x,
        },
{
    match j {
        Json::Object(v) => {
            proof {
                lemma_object_view(*v);
            }
            let ghost es = entries_of(v@);
            let mut i: usize = 0;
            while i < v.len()
                invariant
                    i <= v.len(),
                    es == entries_of(v@),
                    j@ == JsonV::Object(es),
                    es.len() == v.len(),
                    forall|m: int| 0 <= m < i ==> (#[trigger] es[m]).0 != key@,
                decreases v.len() - i,
            {
                if v[i].0 == *key {
                    proof {
                        lemma_field_skip(es, key@, i as int);
                        assert(es.skip(i as int)[0] == es[i as int]);
                    }
                    return Some(&v[i].1);
                }
                assert(es[i as int].0 == v@[i as int].0@);
                i = i + 1;
            }
            proof {
                lemma_field_skip(es, key@, i as int);
                assert(es.skip(i as int).len() == 0);
            }
            None
        },
        _ => None,
    }
}

/// Reads a document typed as a list of strings.
pub fn read_string_list(j: &Json) -> (r: Option<Vec<String>>)
    ensures
        opt_strings_view(r) == string_list(j@),
{
    match j {
        Json::Array(v) => {
            proof {
                lemma_array_view(*v);
            }
            let ghost items = items_of(v@);
            let mut out: Vec<String> = Vec::new();
            let mut i: usize = 0;
            while i < v.len()
                invariant
                    i <= v.len(),
                    items == items_of(v@),
                    j@ == JsonV::Array(items),
                    items.len() == v.len(),
                    out.len() == i,
                    forall|m: int| 0 <= m < i ==> (#[trigger] items[m]) is Str,
                    forall|m: int| 0 <= m < i ==> (#[trigger] out@[m])@ == items[m]->Str_0,
                decreases v.len() - i,
            {
                match &v[i] {
                    Json::Str(s) => {
                        out.push(s.clone());
                    },
                    _ => {
                        assert(!(items[i as int] is Str));
                        return None;
                    },
                }
                i = i + 1;
            }
            assert(strings_of(out@) =~= items.map_values(|x: JsonV| x->Str_0));
            Some(out)
        },
        _ => None,
    }
}

/// Reads the field `key` of an object, typed as an optional string.
pub fn read_optional_string(j: &Json, key: &String) -> (r: Option<Option<String>>)
    requires
        j@ is Object,
    ensures
        match r {
            Some(o) => optional_string(j@->Object_0, key@) == Some(opt_view(o)),
            None => optional_string(j@->Object_0, key@) is None,
        },
{
    match get_field(j, key) {
        None => Some(None),
        Some(Json::Null) => Some(None),
        Some(Json::Str(s)) => Some(Some(s.clone())),
        Some(_) => None,
    }
}

/// Reads the field `key` of an object, typed as a required string.
pub fn read_required_string(j: &Json, key: &String) -> (r: Option<String>)
    requires
        j@ is Object,
    ensures
        opt_view(r) == required_string(j@->Object_0, key@),
{
    match get_field(j, key) {
        Some(Json::Str(s)) => Some(s.clone()),
        _ => None,
    }
}

/// Reads the field `key` of an object, typed as a required list of strings.
pub fn read_required_strings(j: &Json, key: &String) -> (r: Option<Vec<String>>)
    requires
        j@ is Object,
    ensures
        opt_strings_view(r) == required_strings(j@->Object_0, key@),
{
    match get_field(j, key) {
        Some(x) => read_string_list(x),
        None => None,
    }
}

/// Reads the field `key` of an object, typed as an optional list of strings.
pub fn read_optional_strings(j: &Json, key: &String) -> (r: Option<Option<Vec<String>>>)
    requires
        j@ is Object,
    ensures
        match r {
            Some(o) => optional_strings(j@->Object_0, key@) == Some(opt_strings_view(o)),
            None => optional_strings(j@->Object_0, key@) is None,
        },
{
    match get_field(j, key) {
        None => Some(None),
        Some(Json::Null) => Some(None),
        Some(x) => match read_string_list(x) {
            Some(l) => Some(Some(l)),
            None => None,
        },
    }
}


/// Looking up a key in two runs of entries finds it in the first run if it is there.
pub broadcast proof fn lemma_field_concat(a: Seq<(Seq<char>, JsonV)>, b: Seq<(Seq<char>, JsonV)>, k: Seq<char>)
    ensures
        #[trigger] field(a + b, k) == match field(a, k) {
            Some(x) => Some(x),
            None => field(b, k),
        },
    decreases a.len(),
{
    if a.len() == 0 {
        assert(a + b =~= b);
    } else {
        assert((a + b).drop_first() =~= a.drop_first() + b);
        lemma_field_concat(a.drop_first(), b, k);
    }
}

/// Looking up a key in an optional entry.
pub broadcast proof fn lemma_field_optional(k0: Seq<char>, v: Option<JsonV>, k: Seq<char>)
    ensures
        #[trigger] field(optional_entry(k0, v), k) == if k0 == k {
            v
        } else {
            None
        },
{
    if v is Some {
        let es = optional_entry(k0, v);
        assert(es.len() == 1);
        assert(es[0] == (k0, v->Some_0));
        assert(es.drop_first().len() == 0);
        assert(field(es.drop_first(), k) is None);
    }
}

/// A list of strings read back from its JSON array is the same list.
pub broadcast proof fn lemma_string_list_round_trip(s: Seq<Seq<char>>)
    ensures
        #[trigger] string_list(strings_json(s)) == Some(s),
{
    let items = s.map_values(|x: Seq<char>| JsonV::Str(x));
    assert forall|i: int| 0 <= i < items.len() implies (#[trigger] items[i]) is Str by {}
    assert(items.map_values(|x: JsonV| x->Str_0) =~= s);
}


pub open spec fn opt_json_view(o: Option<Json>) -> Option<JsonV> {
    match o {
        Some(j) => Some(j@),
        None => None,
    }
}

/// Appends the entry `(key, value)` when `value` is present.
pub fn push_entry(es: &mut Vec<(String, Json)>, key: &str, value: Option<Json>)
    ensures
        entries_of(final(es)@) == entries_of(old(es)@) + optional_entry(key@, opt_json_view(value)),
{
    let ghost before = es@;
    match value {
        Some(v) => {
            let ghost gv = v@;
            es.push((String::from_str(key), v));
            assert(entries_of(es@) =~= entries_of(before) + optional_entry(key@, Some(gv)));
        },
        None => {
            assert(entries_of(es@) =~= entries_of(before) + optional_entry(key@, None));
        },
    }
}

/// A JSON object with the given entries, in order.
pub fn object(es: Vec<(String, Json)>) -> (r: Json)
    ensures
        r@ == JsonV::Object(entries_of(es@)),
{
    proof {
        lemma_object_view(es);
    }
    Json::Object(es)
}

/// A JSON string.
pub fn string(s: &String) -> (r: Json)
    ensures
        r@ == JsonV::Str(s@),
{
    Json::Str(s.clone())
}

/// A JSON string, if the value is present.
pub fn optional_string_json(s: &Option<String>) -> (r: Option<Json>)
    ensures
        opt_json_view(r) == match opt_view(*s) {
            Some(x) => Some(JsonV::Str(x)),
            None => None,
        },
{
    match s {
        Some(x) => Some(string(x)),
        None => None,
    }
}

/// A JSON array of strings.
pub fn strings(v: &Vec<String>) -> (r: Json)
    ensures
        r@ == strings_json(strings_of(v@)),
{
    let mut out: Vec<Json> = Vec::new();
    let mut i: usize = 0;
    while i < v.len()
        invariant
            i <= v.len(),
            out.len() == i,
            forall|m: int| 0 <= m < i ==> (#[trigger] out@[m])@ == JsonV::Str(v@[m]@),
        decreases v.len() - i,
    {
        out.push(string(&v[i]));
        i = i + 1;
    }
    proof {
        lemma_array_view(out);
        assert(items_of(out@) =~= strings_of(v@).map_values(|x: Seq<char>| JsonV::Str(x)));
    }
    Json::Array(out)
}

/// A JSON array of strings, if the list is present.
pub fn optional_strings_json(v: &Option<Vec<String>>) -> (r: Option<Json>)
    ensures
        opt_json_view(r) == match opt_strings_view(*v) {
            Some(x) => Some(strings_json(x)),
            None => None,
        },
{
    match v {
        Some(x) => Some(strings(x)),
        None => None,
    }
}

} // verus!

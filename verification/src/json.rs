//! The JSON documents that the API sends and receives, modelled as a tree.
//!
//! Numbers that fit an `i64` are held exactly; any other numeric literal is
//! carried verbatim as its text (`Num`), since no endpoint does arithmetic on
//! one.  An object keeps its members in order; a duplicated key means the
//! later member wins, which is what [`lookup`] says.

use vstd::prelude::*;

verus! {

/// A JSON document.
#[derive(Debug, PartialEq, Eq)]
pub enum Json {
    Null,
    Bool(bool),
    Int(i64),
    Num(String),
    Str(String),
    Arr(Vec<Json>),
    Obj(Vec<(String, Json)>),
}

/// The mathematical shape of a JSON document.
pub enum JsonV {
    Null,
    Bool(bool),
    Int(int),
    Num(Seq<char>),
    Str(Seq<char>),
    Arr(Seq<JsonV>),
    Obj(Seq<(Seq<char>, JsonV)>),
}

impl Json {
    /// The abstract value of this document.
    pub open spec fn v(self) -> JsonV
        decreases self,
    {
        match self {
            Json::Null => JsonV::Null,
            Json::Bool(b) => JsonV::Bool(b),
            Json::Int(i) => JsonV::Int(i as int),
            Json::Num(s) => JsonV::Num(s@),
            Json::Str(s) => JsonV::Str(s@),
            Json::Arr(_) => JsonV::Arr(arr_v(self->Arr_0@)),
            Json::Obj(_) => JsonV::Obj(kvs_v(self->Obj_0@)),
        }
    }
}

impl View for Json {
    type V = JsonV;

    open spec fn view(&self) -> JsonV {
        (*self).v()
    }
}

/// The abstract value of a sequence of array elements.
pub open spec fn arr_v(a: Seq<Json>) -> Seq<JsonV>
    decreases a,
{
    if a.len() == 0 {
        Seq::empty()
    } else {
        arr_v(a.subrange(0, a.len() - 1)).push(a[a.len() - 1].v())
    }
}

/// The abstract value of a sequence of object members.
pub open spec fn kvs_v(es: Seq<(String, Json)>) -> Seq<(Seq<char>, JsonV)>
    decreases es,
{
    if es.len() == 0 {
        Seq::empty()
    } else {
        kvs_v(es.subrange(0, es.len() - 1)).push(
            (es[es.len() - 1].0@, es[es.len() - 1].1.v()),
        )
    }
}

pub broadcast proof fn lemma_arr_v_props(a: Seq<Json>)
    ensures
        (#[trigger] arr_v(a)).len() == a.len(),
        forall|i: int| 0 <= i < a.len() ==> #[trigger] arr_v(a)[i] == a[i].v(),
    decreases a.len(),
{
    if a.len() > 0 {
        let front = a.subrange(0, a.len() - 1);
        lemma_arr_v_props(front);
        assert forall|i: int| 0 <= i < a.len() implies #[trigger] arr_v(a)[i] == a[i].v() by {
            if i < a.len() - 1 {
                assert(arr_v(a)[i] == arr_v(front)[i]);
                assert(front[i] == a[i]);
            }
        }
    }
}

pub broadcast proof fn lemma_kvs_v_props(es: Seq<(String, Json)>)
    ensures
        (#[trigger] kvs_v(es)).len() == es.len(),
        forall|i: int| 0 <= i < es.len() ==> #[trigger] kvs_v(es)[i] == (es[i].0@, es[i].1.v()),
    decreases es.len(),
{
    if es.len() > 0 {
        let front = es.subrange(0, es.len() - 1);
        lemma_kvs_v_props(front);
        assert forall|i: int| 0 <= i < es.len() implies #[trigger] kvs_v(es)[i] == (
            es[i].0@,
            es[i].1.v(),
        ) by {
            if i < es.len() - 1 {
                assert(kvs_v(es)[i] == kvs_v(front)[i]);
                assert(front[i] == es[i]);
            }
        }
    }
}

pub broadcast proof fn lemma_kvs_v_push(es: Seq<(String, Json)>, p: (String, Json))
    ensures
        #[trigger] kvs_v(es.push(p)) == kvs_v(es).push((p.0@, p.1.v())),
{
    let s = es.push(p);
    assert(s.subrange(0, s.len() - 1) =~= es);
    assert(s[s.len() - 1] == p);
}

/// The value a key names in an object: the last member with that key wins,
/// as it does when the API's own decoder fills a record.
pub open spec fn lookup(es: Seq<(Seq<char>, JsonV)>, key: Seq<char>) -> Option<JsonV>
    decreases es.len(),
{
    if es.len() == 0 {
        None
    } else if es.last().0 == key {
        Some(es.last().1)
    } else {
        lookup(es.drop_last(), key)
    }
}

pub broadcast proof fn lemma_lookup_push(
    es: Seq<(Seq<char>, JsonV)>,
    k: Seq<char>,
    x: JsonV,
    key: Seq<char>,
)
    ensures
        #[trigger] lookup(es.push((k, x)), key) == if key == k {
            Some(x)
        } else {
            lookup(es, key)
        },
{
    let es2 = es.push((k, x));
    assert(es2.len() == es.len() + 1);
    assert(es2.last() == (k, x));
    assert(es2.drop_last() =~= es);
}

/// An empty member list, to start a push chain from.
pub open spec fn no_entries() -> Seq<(Seq<char>, JsonV)> {
    Seq::empty()
}

/// Whether every element of an array is a string.
pub open spec fn is_str_arr(a: Seq<JsonV>) -> bool {
    forall|i: int| 0 <= i < a.len() ==> a[i] is Str
}

/// The characters of each element of an all-string array.
pub open spec fn strs_of(a: Seq<JsonV>) -> Seq<Seq<char>> {
    Seq::new(a.len(), |i: int| a[i]->Str_0)
}

/// The all-string array holding the given strings.
pub open spec fn strs_to_jsons(s: Seq<Seq<char>>) -> Seq<JsonV> {
    Seq::new(s.len(), |i: int| JsonV::Str(s[i]))
}

pub proof fn lemma_strs_round(a: Seq<JsonV>)
    requires
        is_str_arr(a),
    ensures
        strs_to_jsons(strs_of(a)) == a,
{
    assert(strs_to_jsons(strs_of(a)) =~= a);
}

pub proof fn lemma_strs_to_jsons_injective(a: Seq<Seq<char>>, b: Seq<Seq<char>>)
    requires
        strs_to_jsons(a) == strs_to_jsons(b),
    ensures
        a == b,
{
    assert(strs_to_jsons(a).len() == a.len());
    assert(strs_to_jsons(b).len() == b.len());
    assert forall|i: int| 0 <= i < a.len() implies a[i] == b[i] by {
        assert(strs_to_jsons(a)[i] == JsonV::Str(a[i]));
        assert(strs_to_jsons(b)[i] == JsonV::Str(b[i]));
    }
    assert(a =~= b);
}

/// Turns owned strings into an all-string JSON array.
#[verifier::loop_isolation(false)]
pub fn strs_to_arr(v: &Vec<String>) -> (r: Json)
    ensures
        r@ == JsonV::Arr(strs_to_jsons(v.deep_view())),
{
    broadcast use lemma_arr_v_props;

    let mut out: Vec<Json> = Vec::new();
    let n = v.len();
    let mut i: usize = 0;
    while i < n
        invariant
            n == v.len(),
            i <= n,
            out@.len() == i,
            forall|k: int| 0 <= k < i ==> out@[k].v() == JsonV::Str(v@[k]@),
        decreases n - i,
    {
        out.push(Json::Str(v[i].clone()));
        i = i + 1;
    }
    proof {
        assert(arr_v(out@) =~= strs_to_jsons(v.deep_view()));
    }
    Json::Arr(out)
}

/// Reads an all-string JSON array back into owned strings.
#[verifier::loop_isolation(false)]
pub fn arr_to_strs(a: &Vec<Json>) -> (r: Option<Vec<String>>)
    ensures
        match r {
            Some(out) => is_str_arr(arr_v(a@)) && out.deep_view() == strs_of(arr_v(a@)),
            None => !is_str_arr(arr_v(a@)),
        },
{
    broadcast use lemma_arr_v_props;

    let mut out: Vec<String> = Vec::new();
    let n = a.len();
    let mut i: usize = 0;
    while i < n
        invariant
            n == a.len(),
            i <= n,
            out@.len() == i,
            forall|k: int| 0 <= k < i ==> arr_v(a@)[k] is Str,
            forall|k: int| 0 <= k < i ==> out@[k]@ == arr_v(a@)[k]->Str_0,
        decreases n - i,
    {
        match &a[i] {
            Json::Str(s) => {
                out.push(s.clone());
            },
            _ => {
                proof {
                    assert(arr_v(a@)[i as int] == a@[i as int].v());
                }
                return None;
            },
        }
        i = i + 1;
    }
    proof {
        assert(out.deep_view() =~= strs_of(arr_v(a@)));
    }
    Some(out)
}

/// The member a key names, if any.
#[verifier::loop_isolation(false)]
pub fn obj_get<'a>(es: &'a Vec<(String, Json)>, key: &str) -> (r: Option<&'a Json>)
    ensures
        match r {
            Some(j) => lookup(kvs_v(es@), key@) == Some(j.v()),
            None => lookup(kvs_v(es@), key@) is None,
        },
{
    broadcast use lemma_kvs_v_props;

    let k: String = key.to_owned();
    let mut i: usize = es.len();
    proof {
        assert(kvs_v(es@).take(i as int) =~= kvs_v(es@));
    }
    while i > 0
        invariant
            i <= es.len(),
            k@ == key@,
            lookup(kvs_v(es@), key@) == lookup(kvs_v(es@).take(i as int), key@),
        decreases i,
    {
        i = i - 1;
        let e = &es[i];
        proof {
            let full = kvs_v(es@);
            assert(full.take(i + 1).last() == full[i as int]);
            assert(full.take(i + 1).drop_last() =~= full.take(i as int));
        }
        if e.0 == k {
            proof {
                assert(kvs_v(es@).take(i + 1).len() > 0);
            }
            return Some(&e.1);
        }
    }
    proof {
        assert(kvs_v(es@).take(0) =~= Seq::empty());
    }
    None
}

/// The view of an optional value.
pub open spec fn opt_v<T: View>(o: Option<T>) -> Option<T::V> {
    match o {
        Some(t) => Some(t@),
        None => None,
    }
}

/// The deep view of an optional value.
pub open spec fn opt_dv<T: DeepView>(o: Option<T>) -> Option<T::V> {
    match o {
        Some(t) => Some(t.deep_view()),
        None => None,
    }
}

/// Well-formedness of single members, as the record decoders demand it.
pub open spec fn wf_str(es: Seq<(Seq<char>, JsonV)>, k: Seq<char>) -> bool {
    lookup(es, k) matches Some(JsonV::Str(_))
}

pub open spec fn wf_opt_str(es: Seq<(Seq<char>, JsonV)>, k: Seq<char>) -> bool {
    match lookup(es, k) {
        None => true,
        Some(JsonV::Null) => true,
        Some(JsonV::Str(_)) => true,
        _ => false,
    }
}

pub open spec fn wf_bool_or(es: Seq<(Seq<char>, JsonV)>, k: Seq<char>) -> bool {
    match lookup(es, k) {
        None => true,
        Some(JsonV::Bool(_)) => true,
        _ => false,
    }
}

pub open spec fn wf_opt_bool(es: Seq<(Seq<char>, JsonV)>, k: Seq<char>) -> bool {
    match lookup(es, k) {
        None => true,
        Some(JsonV::Null) => true,
        Some(JsonV::Bool(_)) => true,
        _ => false,
    }
}

pub open spec fn wf_bool(es: Seq<(Seq<char>, JsonV)>, k: Seq<char>) -> bool {
    lookup(es, k) matches Some(JsonV::Bool(_))
}

pub open spec fn wf_int_in(es: Seq<(Seq<char>, JsonV)>, k: Seq<char>, lo: int, hi: int) -> bool {
    lookup(es, k) matches Some(JsonV::Int(n)) && lo <= n <= hi
}

pub open spec fn wf_opt_int_in(
    es: Seq<(Seq<char>, JsonV)>,
    k: Seq<char>,
    lo: int,
    hi: int,
) -> bool {
    match lookup(es, k) {
        None => true,
        Some(JsonV::Null) => true,
        Some(JsonV::Int(n)) => lo <= n <= hi,
        _ => false,
    }
}

/// A non-optional integer member with a declared default: it may be
/// absent, but an explicit `null` is a decode failure, as it is for every
/// defaulted non-optional member.
pub open spec fn wf_int_or(es: Seq<(Seq<char>, JsonV)>, k: Seq<char>, lo: int, hi: int) -> bool {
    match lookup(es, k) {
        None => true,
        Some(JsonV::Int(n)) => lo <= n <= hi,
        _ => false,
    }
}

pub open spec fn wf_strs(es: Seq<(Seq<char>, JsonV)>, k: Seq<char>) -> bool {
    lookup(es, k) matches Some(JsonV::Arr(a)) && is_str_arr(a)
}

pub open spec fn wf_strs_or_empty(es: Seq<(Seq<char>, JsonV)>, k: Seq<char>) -> bool {
    match lookup(es, k) {
        None => true,
        Some(JsonV::Arr(a)) => is_str_arr(a),
        _ => false,
    }
}

pub open spec fn wf_opt_strs(es: Seq<(Seq<char>, JsonV)>, k: Seq<char>) -> bool {
    match lookup(es, k) {
        None => true,
        Some(JsonV::Null) => true,
        Some(JsonV::Arr(a)) => is_str_arr(a),
        _ => false,
    }
}

/// What a member holds, stated against a decoded field value.
pub open spec fn fv_str(es: Seq<(Seq<char>, JsonV)>, k: Seq<char>, s: Seq<char>) -> bool {
    lookup(es, k) == Some(JsonV::Str(s))
}

pub open spec fn fv_opt_str(
    es: Seq<(Seq<char>, JsonV)>,
    k: Seq<char>,
    s: Option<Seq<char>>,
) -> bool {
    match s {
        Some(x) => lookup(es, k) == Some(JsonV::Str(x)),
        None => lookup(es, k) is None || lookup(es, k) == Some(JsonV::Null),
    }
}

pub open spec fn fv_bool(es: Seq<(Seq<char>, JsonV)>, k: Seq<char>, b: bool) -> bool {
    lookup(es, k) == Some(JsonV::Bool(b))
}

pub open spec fn fv_bool_or(
    es: Seq<(Seq<char>, JsonV)>,
    k: Seq<char>,
    dflt: bool,
    b: bool,
) -> bool {
    (lookup(es, k) is None && b == dflt) || lookup(es, k) == Some(JsonV::Bool(b))
}

pub open spec fn fv_opt_bool(es: Seq<(Seq<char>, JsonV)>, k: Seq<char>, b: Option<bool>) -> bool {
    match b {
        Some(x) => lookup(es, k) == Some(JsonV::Bool(x)),
        None => lookup(es, k) is None || lookup(es, k) == Some(JsonV::Null),
    }
}

pub open spec fn fv_int(es: Seq<(Seq<char>, JsonV)>, k: Seq<char>, n: int) -> bool {
    lookup(es, k) == Some(JsonV::Int(n))
}

pub open spec fn fv_int_or(es: Seq<(Seq<char>, JsonV)>, k: Seq<char>, dflt: int, n: int) -> bool {
    (lookup(es, k) is None && n == dflt) || lookup(es, k) == Some(JsonV::Int(n))
}

pub open spec fn fv_opt_int(es: Seq<(Seq<char>, JsonV)>, k: Seq<char>, n: Option<int>) -> bool {
    match n {
        Some(x) => lookup(es, k) == Some(JsonV::Int(x)),
        None => lookup(es, k) is None || lookup(es, k) == Some(JsonV::Null),
    }
}

pub open spec fn fv_strs(es: Seq<(Seq<char>, JsonV)>, k: Seq<char>, v: Seq<Seq<char>>) -> bool {
    lookup(es, k) == Some(JsonV::Arr(strs_to_jsons(v)))
}

pub open spec fn fv_strs_or_empty(
    es: Seq<(Seq<char>, JsonV)>,
    k: Seq<char>,
    v: Seq<Seq<char>>,
) -> bool {
    (lookup(es, k) is None && v == Seq::<Seq<char>>::empty()) || lookup(es, k) == Some(
        JsonV::Arr(strs_to_jsons(v)),
    )
}

pub open spec fn fv_opt_strs(
    es: Seq<(Seq<char>, JsonV)>,
    k: Seq<char>,
    v: Option<Seq<Seq<char>>>,
) -> bool {
    match v {
        Some(x) => lookup(es, k) == Some(JsonV::Arr(strs_to_jsons(x))),
        None => lookup(es, k) is None || lookup(es, k) == Some(JsonV::Null),
    }
}

/// Appends a string member.
pub fn put_str(es: &mut Vec<(String, Json)>, key: &str, val: &str)
    ensures
        kvs_v(final(es)@) == kvs_v(old(es)@).push((key@, JsonV::Str(val@))),
{
    broadcast use lemma_kvs_v_push;

    es.push((key.to_owned(), Json::Str(val.to_owned())));
}

/// Appends a boolean member.
pub fn put_bool(es: &mut Vec<(String, Json)>, key: &str, val: bool)
    ensures
        kvs_v(final(es)@) == kvs_v(old(es)@).push((key@, JsonV::Bool(val))),
{
    broadcast use lemma_kvs_v_push;

    es.push((key.to_owned(), Json::Bool(val)));
}

/// Appends an integer member.
pub fn put_int(es: &mut Vec<(String, Json)>, key: &str, val: i64)
    ensures
        kvs_v(final(es)@) == kvs_v(old(es)@).push((key@, JsonV::Int(val as int))),
{
    broadcast use lemma_kvs_v_push;

    es.push((key.to_owned(), Json::Int(val)));
}

/// Appends an already-built member.
pub fn put_json(es: &mut Vec<(String, Json)>, key: &str, val: Json)
    ensures
        kvs_v(final(es)@) == kvs_v(old(es)@).push((key@, val@)),
{
    broadcast use lemma_kvs_v_push;

    es.push((key.to_owned(), val));
}

/// Appends an all-string array member.
pub fn put_strs(es: &mut Vec<(String, Json)>, key: &str, val: &Vec<String>)
    ensures
        kvs_v(final(es)@) == kvs_v(old(es)@).push(
            (key@, JsonV::Arr(strs_to_jsons(val.deep_view()))),
        ),
{
    broadcast use lemma_kvs_v_push;

    let arr = strs_to_arr(val);
    es.push((key.to_owned(), arr));
}

/// Appends a string member only when the value is there.
pub fn put_opt_str(es: &mut Vec<(String, Json)>, key: &str, val: &Option<String>)
    ensures
        kvs_v(final(es)@) == match *val {
            Some(s) => kvs_v(old(es)@).push((key@, JsonV::Str(s@))),
            None => kvs_v(old(es)@),
        },
{
    match val {
        Some(s) => put_str(es, key, s.as_str()),
        None => (),
    }
}

/// Appends a boolean member only when the value is there.
pub fn put_opt_bool(es: &mut Vec<(String, Json)>, key: &str, val: &Option<bool>)
    ensures
        kvs_v(final(es)@) == match *val {
            Some(b) => kvs_v(old(es)@).push((key@, JsonV::Bool(b))),
            None => kvs_v(old(es)@),
        },
{
    match val {
        Some(b) => put_bool(es, key, *b),
        None => (),
    }
}

/// Appends an all-string array member only when the value is there.
pub fn put_opt_strs(es: &mut Vec<(String, Json)>, key: &str, val: &Option<Vec<String>>)
    ensures
        kvs_v(final(es)@) == match *val {
            Some(v) => kvs_v(old(es)@).push((key@, JsonV::Arr(strs_to_jsons(v.deep_view())))),
            None => kvs_v(old(es)@),
        },
{
    match val {
        Some(v) => put_strs(es, key, v),
        None => (),
    }
}

/// A required string member.
pub fn get_str(es: &Vec<(String, Json)>, key: &str) -> (r: Option<String>)
    ensures
        match r {
            Some(s) => lookup(kvs_v(es@), key@) == Some(JsonV::Str(s@)),
            None => !(lookup(kvs_v(es@), key@) matches Some(JsonV::Str(_))),
        },
{
    match obj_get(es, key) {
        Some(j) => match j {
            Json::Str(s) => Some(s.clone()),
            _ => None,
        },
        None => None,
    }
}

/// An optional string member: absent or an explicit `null` means `None`,
/// any other non-string value is a decode failure.
pub fn get_opt_str(es: &Vec<(String, Json)>, key: &str) -> (r: Option<Option<String>>)
    ensures
        r is Some <==> wf_opt_str(kvs_v(es@), key@),
        r matches Some(opt) ==> fv_opt_str(kvs_v(es@), key@, opt_v(opt)),
{
    match obj_get(es, key) {
        None => Some(None),
        Some(j) => match j {
            Json::Null => Some(None),
            Json::Str(s) => Some(Some(s.clone())),
            _ => None,
        },
    }
}

/// A required boolean member.
pub fn get_bool(es: &Vec<(String, Json)>, key: &str) -> (r: Option<bool>)
    ensures
        match r {
            Some(b) => lookup(kvs_v(es@), key@) == Some(JsonV::Bool(b)),
            None => !(lookup(kvs_v(es@), key@) matches Some(JsonV::Bool(_))),
        },
{
    match obj_get(es, key) {
        Some(j) => match j {
            Json::Bool(b) => Some(*b),
            _ => None,
        },
        None => None,
    }
}

/// A boolean member that falls back to a declared default when absent.
pub fn get_bool_or(es: &Vec<(String, Json)>, key: &str, dflt: bool) -> (r: Option<bool>)
    ensures
        match r {
            Some(b) => (lookup(kvs_v(es@), key@) is None && b == dflt) || lookup(
                kvs_v(es@),
                key@,
            ) == Some(JsonV::Bool(b)),
            None => lookup(kvs_v(es@), key@) is Some && !(lookup(kvs_v(es@), key@) matches Some(
                JsonV::Bool(_),
            )),
        },
{
    match obj_get(es, key) {
        None => Some(dflt),
        Some(j) => match j {
            Json::Bool(b) => Some(*b),
            _ => None,
        },
    }
}

/// An optional boolean member: absent or an explicit `null` means `None`.
pub fn get_opt_bool(es: &Vec<(String, Json)>, key: &str) -> (r: Option<Option<bool>>)
    ensures
        r is Some <==> wf_opt_bool(kvs_v(es@), key@),
        r matches Some(opt) ==> fv_opt_bool(kvs_v(es@), key@, opt),
{
    match obj_get(es, key) {
        None => Some(None),
        Some(j) => match j {
            Json::Null => Some(None),
            Json::Bool(b) => Some(Some(*b)),
            _ => None,
        },
    }
}

/// A required integer member that must lie within the given bounds.
pub fn get_i64_in(es: &Vec<(String, Json)>, key: &str, lo: i64, hi: i64) -> (r: Option<i64>)
    ensures
        match r {
            Some(n) => lookup(kvs_v(es@), key@) == Some(JsonV::Int(n as int)) && lo <= n <= hi,
            None => !(lookup(kvs_v(es@), key@) matches Some(JsonV::Int(m)) && lo <= m <= hi),
        },
{
    match obj_get(es, key) {
        Some(j) => match j {
            Json::Int(n) => {
                if lo <= *n && *n <= hi {
                    Some(*n)
                } else {
                    None
                }
            },
            _ => None,
        },
        None => None,
    }
}

/// An optional integer member within the given bounds: absent or an
/// explicit `null` means `None`.
pub fn get_opt_i64_in(es: &Vec<(String, Json)>, key: &str, lo: i64, hi: i64) -> (r: Option<
    Option<i64>,
>)
    ensures
        r is Some <==> wf_opt_int_in(kvs_v(es@), key@, lo as int, hi as int),
        r matches Some(opt) ==> fv_opt_int(
            kvs_v(es@),
            key@,
            match opt {
                Some(n) => Some(n as int),
                None => None,
            },
        ) && (opt matches Some(n) ==> lo <= n <= hi),
{
    match obj_get(es, key) {
        None => Some(None),
        Some(j) => match j {
            Json::Null => Some(None),
            Json::Int(n) => {
                if lo <= *n && *n <= hi {
                    Some(Some(*n))
                } else {
                    None
                }
            },
            _ => None,
        },
    }
}

/// An integer member within bounds that falls back to a declared default
/// when absent.
pub fn get_i64_in_or(es: &Vec<(String, Json)>, key: &str, lo: i64, hi: i64, dflt: i64) -> (r:
    Option<i64>)
    ensures
        match r {
            Some(n) => (lookup(kvs_v(es@), key@) is None && n == dflt) || (lookup(
                kvs_v(es@),
                key@,
            ) == Some(JsonV::Int(n as int)) && lo <= n <= hi),
            None => lookup(kvs_v(es@), key@) is Some && !(lookup(kvs_v(es@), key@) matches Some(
                JsonV::Int(m),
            ) && lo <= m <= hi),
        },
{
    match obj_get(es, key) {
        None => Some(dflt),
        Some(j) => match j {
            Json::Int(n) => {
                if lo <= *n && *n <= hi {
                    Some(*n)
                } else {
                    None
                }
            },
            _ => None,
        },
    }
}

/// A required all-string array member.
pub fn get_strs(es: &Vec<(String, Json)>, key: &str) -> (r: Option<Vec<String>>)
    ensures
        match r {
            Some(v) => lookup(kvs_v(es@), key@) == Some(JsonV::Arr(strs_to_jsons(v.deep_view()))),
            None => !(lookup(kvs_v(es@), key@) matches Some(JsonV::Arr(a)) && is_str_arr(a)),
        },
{
    match obj_get(es, key) {
        Some(j) => match j {
            Json::Arr(a) => match arr_to_strs(a) {
                Some(v) => {
                    proof {
                        lemma_strs_round(arr_v(a@));
                    }
                    Some(v)
                },
                None => None,
            },
            _ => None,
        },
        None => None,
    }
}

/// An all-string array member that falls back to the empty list when absent.
pub fn get_strs_or_empty(es: &Vec<(String, Json)>, key: &str) -> (r: Option<Vec<String>>)
    ensures
        match r {
            Some(v) => (lookup(kvs_v(es@), key@) is None && v.deep_view() == Seq::<
                Seq<char>,
            >::empty()) || lookup(kvs_v(es@), key@) == Some(
                JsonV::Arr(strs_to_jsons(v.deep_view())),
            ),
            None => lookup(kvs_v(es@), key@) is Some && !(lookup(kvs_v(es@), key@) matches Some(
                JsonV::Arr(a),
            ) && is_str_arr(a)),
        },
{
    match obj_get(es, key) {
        None => {
            let v: Vec<String> = Vec::new();
            proof {
                assert(v.deep_view() =~= Seq::<Seq<char>>::empty());
            }
            Some(v)
        },
        Some(j) => match j {
            Json::Arr(a) => match arr_to_strs(a) {
                Some(v) => {
                    proof {
                        lemma_strs_round(arr_v(a@));
                    }
                    Some(v)
                },
                None => None,
            },
            _ => None,
        },
    }
}

/// An optional all-string array member: absent or an explicit `null`
/// means `None`.
pub fn get_opt_strs(es: &Vec<(String, Json)>, key: &str) -> (r: Option<Option<Vec<String>>>)
    ensures
        r is Some <==> wf_opt_strs(kvs_v(es@), key@),
        r matches Some(opt) ==> fv_opt_strs(kvs_v(es@), key@, opt_dv(opt)),
{
    match obj_get(es, key) {
        None => Some(None),
        Some(j) => match j {
            Json::Null => Some(None),
            Json::Arr(a) => match arr_to_strs(a) {
                Some(v) => {
                    proof {
                        lemma_strs_round(arr_v(a@));
                    }
                    Some(Some(v))
                },
                None => None,
            },
            _ => None,
        },
    }
}

} // verus!

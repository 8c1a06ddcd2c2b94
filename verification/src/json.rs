//! A plain JSON document model.
//!
//! Every manifest the operator emits, and every object it reads back from the
//! API server for readiness gating, is a [`Json`] tree. Its mathematical model
//! is [`JsonView`]: objects are association lists of (key, value) pairs in
//! insertion order, arrays are sequences.
use vstd::prelude::*;

verus! {

/// A JSON value. Numbers that are not 64-bit integers keep their decimal text.
#[derive(Debug, PartialEq, Eq)]
pub enum Json {
    Null,
    Bool(bool),
    Int(i64),
    Num(String),
    Str(String),
    Arr(Vec<Json>),
    Obj(Vec<(String, Json)>),
}

/// The mathematical model of a [`Json`] value.
pub enum JsonView {
    Null,
    Bool(bool),
    Int(int),
    Num(Seq<char>),
    Str(Seq<char>),
    Arr(Seq<JsonView>),
    Obj(Seq<(Seq<char>, JsonView)>),
}

pub open spec fn json_view(j: Json) -> JsonView
    decreases j,
{
    match j {
        Json::Null => JsonView::Null,
        Json::Bool(b) => JsonView::Bool(b),
        Json::Int(i) => JsonView::Int(i as int),
        Json::Num(s) => JsonView::Num(s@),
        Json::Str(s) => JsonView::Str(s@),
        Json::Arr(v) => JsonView::Arr(items_view(v@)),
        Json::Obj(f) => JsonView::Obj(fields_view(f@)),
    }
}

pub open spec fn items_view(s: Seq<Json>) -> Seq<JsonView>
    decreases s,
{
    if s.len() == 0 {
        Seq::empty()
    } else {
        items_view(s.drop_last()).push(json_view(s.last()))
    }
}

pub open spec fn fields_view(s: Seq<(String, Json)>) -> Seq<(Seq<char>, JsonView)>
    decreases s,
{
    if s.len() == 0 {
        Seq::empty()
    } else {
        fields_view(s.drop_last()).push((s.last().0@, json_view(s.last().1)))
    }
}

impl View for Json {
    type V = JsonView;

    open spec fn view(&self) -> JsonView {
        json_view(*self)
    }
}

/// The empty object `{}`.
pub open spec fn jobj() -> JsonView {
    JsonView::Obj(Seq::empty())
}

/// The empty array `[]`.
pub open spec fn jarr() -> JsonView {
    JsonView::Arr(Seq::empty())
}

pub open spec fn jstr(s: Seq<char>) -> JsonView {
    JsonView::Str(s)
}

pub open spec fn jint(i: int) -> JsonView {
    JsonView::Int(i)
}

/// Position of the first field named `k` at or after `i`, or -1.
pub open spec fn key_pos_from(f: Seq<(Seq<char>, JsonView)>, k: Seq<char>, i: int) -> int
    decreases f.len() - i,
{
    if i < 0 || i >= f.len() {
        -1
    } else if f[i].0 == k {
        i
    } else {
        key_pos_from(f, k, i + 1)
    }
}

/// Position of the first field named `k`, or -1.
pub open spec fn key_pos(f: Seq<(Seq<char>, JsonView)>, k: Seq<char>) -> int {
    key_pos_from(f, k, 0)
}

/// Value of the first field named `k` in a field list.
pub open spec fn field_of(f: Seq<(Seq<char>, JsonView)>, k: Seq<char>) -> Option<JsonView> {
    let p = key_pos(f, k);
    if 0 <= p < f.len() {
        Some(f[p].1)
    } else {
        None
    }
}

/// Replace the first field named `k`, or append it when there is none.
pub open spec fn set_field(f: Seq<(Seq<char>, JsonView)>, k: Seq<char>, v: JsonView) -> Seq<
    (Seq<char>, JsonView),
> {
    let p = key_pos(f, k);
    if 0 <= p < f.len() {
        f.update(p, (f[p].0, v))
    } else {
        f.push((k, v))
    }
}

impl JsonView {
    /// This object with one more field appended (other values are unchanged).
    pub open spec fn with(self, k: Seq<char>, v: JsonView) -> JsonView {
        match self {
            JsonView::Obj(f) => JsonView::Obj(f.push((k, v))),
            _ => self,
        }
    }

    /// This array with one more item appended (other values are unchanged).
    pub open spec fn push(self, v: JsonView) -> JsonView {
        match self {
            JsonView::Arr(a) => JsonView::Arr(a.push(v)),
            _ => self,
        }
    }

    /// This object with field `k` set to `v`: the first field named `k` is
    /// replaced, or the field is appended (a non-object is unchanged).
    pub open spec fn set(self, k: Seq<char>, v: JsonView) -> JsonView {
        match self {
            JsonView::Obj(f) => JsonView::Obj(set_field(f, k, v)),
            _ => self,
        }
    }

    /// This object with field `k: v` appended only when no field is named `k`.
    pub open spec fn set_default(self, k: Seq<char>, v: JsonView) -> JsonView {
        match self {
            JsonView::Obj(f) => if key_pos(f, k) == -1 {
                JsonView::Obj(f.push((k, v)))
            } else {
                self
            },
            _ => self,
        }
    }

    /// Object member lookup, as `serde_json::Value::get` with a string key.
    pub open spec fn get(self, k: Seq<char>) -> Option<JsonView> {
        match self {
            JsonView::Obj(f) => field_of(f, k),
            _ => None,
        }
    }

    /// Array element lookup, as `serde_json::Value::get` with an index.
    pub open spec fn at(self, i: int) -> Option<JsonView> {
        match self {
            JsonView::Arr(a) => if 0 <= i < a.len() {
                Some(a[i])
            } else {
                None
            },
            _ => None,
        }
    }
}

/// Lookup along a path of object keys.
pub open spec fn get_path(j: JsonView, path: Seq<Seq<char>>) -> Option<JsonView>
    decreases path.len(),
{
    if path.len() == 0 {
        Some(j)
    } else {
        match j.get(path[0]) {
            Some(c) => get_path(c, path.skip(1)),
            None => None,
        }
    }
}

/// `serde_json`'s recursive merge: objects merge key by key (in overlay order),
/// anything else is replaced by the overlay.
pub open spec fn merged(base: JsonView, overlay: JsonView) -> JsonView
    decreases overlay,
{
    match overlay {
        JsonView::Obj(of) => match base {
            JsonView::Obj(bf) => JsonView::Obj(merged_fields(bf, of)),
            _ => overlay,
        },
        _ => overlay,
    }
}

pub open spec fn merged_fields(bf: Seq<(Seq<char>, JsonView)>, of: Seq<(Seq<char>, JsonView)>) -> Seq<
    (Seq<char>, JsonView),
>
    decreases of,
{
    if of.len() == 0 {
        bf
    } else {
        let acc = merged_fields(bf, of.drop_last());
        let k = of.last().0;
        let cur = match field_of(acc, k) {
            Some(c) => c,
            None => JsonView::Null,
        };
        set_field(acc, k, merged(cur, of.last().1))
    }
}

/// Size of a document: one per node.
pub open spec fn json_size(j: JsonView) -> nat
    decreases j,
{
    match j {
        JsonView::Arr(a) => 1 + items_size(a),
        JsonView::Obj(f) => 1 + fields_size(f),
        _ => 1,
    }
}

pub open spec fn items_size(a: Seq<JsonView>) -> nat
    decreases a,
{
    if a.len() == 0 {
        0
    } else {
        items_size(a.drop_last()) + json_size(a.last())
    }
}

pub open spec fn fields_size(f: Seq<(Seq<char>, JsonView)>) -> nat
    decreases f,
{
    if f.len() == 0 {
        0
    } else {
        fields_size(f.drop_last()) + json_size(f.last().1)
    }
}

pub proof fn lemma_items_view(s: Seq<Json>)
    ensures
        items_view(s).len() == s.len(),
        forall|i: int| 0 <= i < s.len() ==> #[trigger] items_view(s)[i] == json_view(s[i]),
    decreases s.len(),
{
    if s.len() > 0 {
        lemma_items_view(s.drop_last());
    }
}

pub proof fn lemma_fields_view(s: Seq<(String, Json)>)
    ensures
        fields_view(s).len() == s.len(),
        forall|i: int|
            0 <= i < s.len() ==> #[trigger] fields_view(s)[i] == (s[i].0@, json_view(s[i].1)),
    decreases s.len(),
{
    if s.len() > 0 {
        lemma_fields_view(s.drop_last());
    }
}

pub proof fn lemma_items_view_push(s: Seq<Json>, x: Json)
    ensures
        items_view(s.push(x)) == items_view(s).push(json_view(x)),
{
    assert(s.push(x).drop_last() =~= s);
}

pub proof fn lemma_fields_view_push(s: Seq<(String, Json)>, x: (String, Json))
    ensures
        fields_view(s.push(x)) == fields_view(s).push((x.0@, json_view(x.1))),
{
    assert(s.push(x).drop_last() =~= s);
}

pub proof fn lemma_items_size(a: Seq<JsonView>)
    ensures
        forall|i: int| 0 <= i < a.len() ==> json_size(#[trigger] a[i]) <= items_size(a),
    decreases a.len(),
{
    if a.len() > 0 {
        lemma_items_size(a.drop_last());
        assert forall|i: int| 0 <= i < a.len() implies json_size(#[trigger] a[i]) <= items_size(
            a,
        ) by {
            if i < a.len() - 1 {
                assert(a.drop_last()[i] == a[i]);
            }
        }
    }
}

pub proof fn lemma_fields_size(f: Seq<(Seq<char>, JsonView)>)
    ensures
        forall|i: int| 0 <= i < f.len() ==> json_size(#[trigger] f[i].1) <= fields_size(f),
    decreases f.len(),
{
    if f.len() > 0 {
        lemma_fields_size(f.drop_last());
        assert forall|i: int| 0 <= i < f.len() implies json_size(#[trigger] f[i].1) <= fields_size(
            f,
        ) by {
            if i < f.len() - 1 {
                assert(f.drop_last()[i] == f[i]);
            }
        }
    }
}

pub proof fn lemma_key_pos_from(f: Seq<(Seq<char>, JsonView)>, k: Seq<char>, i: int)
    requires
        0 <= i <= f.len(),
    ensures
        key_pos_from(f, k, i) == -1 || (i <= key_pos_from(f, k, i) < f.len() && f[key_pos_from(
            f,
            k,
            i,
        )].0 == k),
        key_pos_from(f, k, i) == -1 ==> forall|j: int| i <= j < f.len() ==> #[trigger] f[j].0 != k,
        key_pos_from(f, k, i) != -1 ==> forall|j: int|
            i <= j < key_pos_from(f, k, i) ==> #[trigger] f[j].0 != k,
    decreases f.len() - i,
{
    if i < f.len() && f[i].0 != k {
        lemma_key_pos_from(f, k, i + 1);
    }
}

/// Appending a field does not move the first field of any key.
pub proof fn lemma_key_pos_push(f: Seq<(Seq<char>, JsonView)>, x: (Seq<char>, JsonView), q: Seq<char>, i: int)
    requires
        0 <= i <= f.len(),
    ensures
        key_pos_from(f.push(x), q, i) == if key_pos_from(f, q, i) != -1 {
            key_pos_from(f, q, i)
        } else if x.0 == q {
            f.len() as int
        } else {
            -1
        },
    decreases f.len() - i,
{
    if i < f.len() {
        lemma_key_pos_push(f, x, q, i + 1);
        assert(f.push(x)[i] == f[i]);
    } else {
        assert(f.push(x)[i] == x);
        assert(key_pos_from(f.push(x), q, i + 1) == -1);
    }
}

/// Looking a key up in an object with one more field appended: the new
/// field is found only when the key was absent; any other key is found as
/// before.
pub proof fn lemma_with_get(j: JsonView, k: Seq<char>, v: JsonView, q: Seq<char>)
    requires
        j is Obj,
    ensures
        j.with(k, v).get(q) == if q == k && j.get(q) is None {
            Some(v)
        } else {
            j.get(q)
        },
{
    let f = j->Obj_0;
    lemma_key_pos_push(f, (k, v), q, 0);
    lemma_key_pos_from(f, q, 0);
}

/// Builds the string value `s`.
pub fn string_of(s: &str) -> (r: String)
    ensures
        r@ == s@,
{
    s.to_string()
}

/// `a` followed by `b`.
pub fn cat(a: &str, b: &str) -> (r: String)
    ensures
        r@ == a@ + b@,
{
    let mut s = a.to_string();
    s.append(b);
    s
}

/// `a`, `b` and `c` in order.
pub fn cat3(a: &str, b: &str, c: &str) -> (r: String)
    ensures
        r@ == a@ + b@ + c@,
{
    let mut s = a.to_string();
    s.append(b);
    s.append(c);
    s
}

impl Json {
    /// `{}`
    pub fn object() -> (r: Json)
        ensures
            r@ == jobj(),
    {
        let f: Vec<(String, Json)> = Vec::new();
        Json::Obj(f)
    }

    /// `[]`
    pub fn array() -> (r: Json)
        ensures
            r@ == jarr(),
    {
        let a: Vec<Json> = Vec::new();
        Json::Arr(a)
    }

    pub fn text(s: &str) -> (r: Json)
        ensures
            r@ == jstr(s@),
    {
        Json::Str(s.to_string())
    }

    pub fn string(s: String) -> (r: Json)
        ensures
            r@ == jstr(s@),
    {
        Json::Str(s)
    }

    pub fn integer(i: i64) -> (r: Json)
        ensures
            r@ == jint(i as int),
    {
        Json::Int(i)
    }

    pub fn boolean(b: bool) -> (r: Json)
        ensures
            r@ == JsonView::Bool(b),
    {
        Json::Bool(b)
    }

    /// Append field `k: v` to this object; a non-object is returned unchanged.
    pub fn with(self, k: &str, v: Json) -> (r: Json)
        ensures
            r@ == self@.with(k@, v@),
    {
        self.with_key(k.to_string(), v)
    }

    /// As [`Json::with`], with an owned key.
    pub fn with_key(self, k: String, v: Json) -> (r: Json)
        ensures
            r@ == self@.with(k@, v@),
    {
        match self {
            Json::Obj(mut f) => {
                let ghost old_f = f@;
                f.push((k, v));
                proof {
                    lemma_fields_view_push(old_f, (k, v));
                }
                Json::Obj(f)
            },
            other => other,
        }
    }

    /// Append item `v` to this array; a non-array is returned unchanged.
    pub fn push(self, v: Json) -> (r: Json)
        ensures
            r@ == self@.push(v@),
    {
        match self {
            Json::Arr(mut a) => {
                let ghost old_a = a@;
                a.push(v);
                proof {
                    lemma_items_view_push(old_a, v);
                }
                Json::Arr(a)
            },
            other => other,
        }
    }

    /// Set field `k` to `v` (replacing the first field named `k`, if any).
    pub fn set(self, k: &str, v: Json) -> (r: Json)
        ensures
            r@ == self@.set(k@, v@),
    {
        match self {
            Json::Obj(mut f) => {
                let key = k.to_string();
                proof {
                    lemma_fields_view(f@);
                }
                let ghost fv = fields_view(f@);
                match find_key(&f, &key) {
                    Some(p) => {
                        let (k0, _old) = f.remove(p);
                        f.insert(p, (k0, v));
                        proof {
                            lemma_fields_view(f@);
                            assert(fields_view(f@) =~= set_field(fv, k@, v@));
                        }
                    },
                    None => {
                        let ghost before = f@;
                        f.push((key, v));
                        proof {
                            lemma_fields_view_push(before, (key, v));
                        }
                    },
                }
                Json::Obj(f)
            },
            other => other,
        }
    }

    /// Add field `k: v` unless a field named `k` exists.
    pub fn set_default(self, k: &str, v: Json) -> (r: Json)
        ensures
            r@ == self@.set_default(k@, v@),
    {
        match self {
            Json::Obj(mut f) => {
                let key = k.to_string();
                match find_key(&f, &key) {
                    Some(_) => Json::Obj(f),
                    None => {
                        let ghost before = f@;
                        f.push((key, v));
                        proof {
                            lemma_fields_view_push(before, (key, v));
                        }
                        Json::Obj(f)
                    },
                }
            },
            other => other,
        }
    }

    /// A deep copy.
    pub fn copy(&self) -> (r: Json)
        ensures
            r@ == self@,
        decreases json_size(self@),
    {
        match self {
            Json::Null => Json::Null,
            Json::Bool(b) => Json::Bool(*b),
            Json::Int(i) => Json::Int(*i),
            Json::Num(s) => Json::Num(s.clone()),
            Json::Str(s) => Json::Str(s.clone()),
            Json::Arr(a) => {
                let mut out: Vec<Json> = Vec::new();
                let mut i: usize = 0;
                proof {
                    lemma_items_view(a@);
                    lemma_items_size(items_view(a@));
                }
                while i < a.len()
                    invariant
                        i <= a.len(),
                        items_view(out@) == items_view(a@.take(i as int)),
                        self@ == JsonView::Arr(items_view(a@)),
                        items_view(a@).len() == a@.len(),
                        forall|j: int|
                            0 <= j < a@.len() ==> #[trigger] items_view(a@)[j] == json_view(a@[j]),
                        forall|j: int|
                            0 <= j < a@.len() ==> json_size(#[trigger] items_view(a@)[j])
                                <= items_size(items_view(a@)),
                    decreases a.len() - i,
                {
                    assert(json_size(items_view(a@)[i as int]) <= items_size(items_view(a@)));
                    let c = a[i].copy();
                    let ghost before = out@;
                    out.push(c);
                    proof {
                        lemma_items_view_push(before, c);
                        lemma_items_view_push(a@.take(i as int), a@[i as int]);
                        assert(a@.take(i as int).push(a@[i as int]) =~= a@.take(i + 1));
                    }
                    i = i + 1;
                }
                assert(a@.take(a@.len() as int) =~= a@);
                Json::Arr(out)
            },
            Json::Obj(f) => {
                let mut out: Vec<(String, Json)> = Vec::new();
                let mut i: usize = 0;
                proof {
                    lemma_fields_view(f@);
                    lemma_fields_size(fields_view(f@));
                }
                while i < f.len()
                    invariant
                        i <= f.len(),
                        fields_view(out@) == fields_view(f@.take(i as int)),
                        self@ == JsonView::Obj(fields_view(f@)),
                        fields_view(f@).len() == f@.len(),
                        forall|j: int|
                            0 <= j < f@.len() ==> #[trigger] fields_view(f@)[j] == (
                                f@[j].0@,
                                json_view(f@[j].1),
                            ),
                        forall|j: int|
                            0 <= j < f@.len() ==> json_size(#[trigger] fields_view(f@)[j].1)
                                <= fields_size(fields_view(f@)),
                    decreases f.len() - i,
                {
                    assert(json_size(fields_view(f@)[i as int].1) <= fields_size(fields_view(f@)));
                    let c = f[i].1.copy();
                    let k = f[i].0.clone();
                    let ghost before = out@;
                    out.push((k, c));
                    proof {
                        lemma_fields_view_push(before, (k, c));
                        lemma_fields_view_push(f@.take(i as int), f@[i as int]);
                        assert(f@.take(i as int).push(f@[i as int]) =~= f@.take(i + 1));
                    }
                    i = i + 1;
                }
                assert(f@.take(f@.len() as int) =~= f@);
                Json::Obj(out)
            },
        }
    }
}

/// Position of the first field named `k` in `f`, if any.
fn find_key(f: &Vec<(String, Json)>, k: &String) -> (r: Option<usize>)
    ensures
        match r {
            Some(p) => p as int == key_pos(fields_view(f@), k@) && p < f@.len(),
            None => key_pos(fields_view(f@), k@) == -1,
        },
{
    proof {
        lemma_fields_view(f@);
    }
    let ghost fv = fields_view(f@);
    let mut i: usize = 0;
    while i < f.len()
        invariant
            i <= f.len(),
            fv == fields_view(f@),
            fv.len() == f@.len(),
            forall|j: int| 0 <= j < f@.len() ==> #[trigger] fv[j] == (f@[j].0@, json_view(f@[j].1)),
            key_pos_from(fv, k@, i as int) == key_pos(fv, k@),
        decreases f.len() - i,
    {
        if f[i].0 == *k {
            return Some(i);
        }
        i = i + 1;
    }
    None
}

impl Json {
    /// Object member lookup (`None` for a missing key or a non-object).
    pub fn get(&self, k: &str) -> (r: Option<&Json>)
        ensures
            match self@.get(k@) {
                Some(v) => r is Some && r->0@ == v,
                None => r is None,
            },
    {
        match self {
            Json::Obj(f) => {
                let key = k.to_string();
                proof {
                    lemma_fields_view(f@);
                }
                match find_key(f, &key) {
                    Some(p) => Some(&f[p].1),
                    None => None,
                }
            },
            _ => None,
        }
    }

    /// Array element lookup (`None` out of range or for a non-array).
    pub fn at(&self, i: usize) -> (r: Option<&Json>)
        ensures
            match self@.at(i as int) {
                Some(v) => r is Some && r->0@ == v,
                None => r is None,
            },
    {
        match self {
            Json::Arr(a) => {
                proof {
                    lemma_items_view(a@);
                }
                if i < a.len() {
                    Some(&a[i])
                } else {
                    None
                }
            },
            _ => None,
        }
    }

    /// The text of a string value.
    pub fn as_str(&self) -> (r: Option<&str>)
        ensures
            match self@ {
                JsonView::Str(s) => r is Some && r->0@ == s,
                _ => r is None,
            },
    {
        match self {
            Json::Str(s) => Some(s.as_str()),
            _ => None,
        }
    }

    /// The value of an integer.
    pub fn as_int(&self) -> (r: Option<i64>)
        ensures
            match self@ {
                JsonView::Int(i) => r == Some(i as i64) && i == r->0 as int,
                _ => r is None,
            },
    {
        match self {
            Json::Int(i) => Some(*i),
            _ => None,
        }
    }

    /// Number of items of an array or fields of an object; zero otherwise.
    pub fn len(&self) -> (r: usize)
        ensures
            match self@ {
                JsonView::Arr(a) => r == a.len(),
                JsonView::Obj(f) => r == f.len(),
                _ => r == 0,
            },
    {
        match self {
            Json::Arr(a) => {
                proof {
                    lemma_items_view(a@);
                }
                a.len()
            },
            Json::Obj(f) => {
                proof {
                    lemma_fields_view(f@);
                }
                f.len()
            },
            _ => 0,
        }
    }
}

/// Recursively merge `overlay` into `base`: objects merge field by field, any
/// other overlay value replaces the base value.
pub fn merge(base: Json, overlay: Json) -> (r: Json)
    ensures
        r@ == merged(base@, overlay@),
    decreases json_size(overlay@), 0nat,
{
    match overlay {
        Json::Obj(of) => match base {
            Json::Obj(bf) => {
                proof {
                    lemma_fields_size_view(of@);
                }
                Json::Obj(merge_fields(bf, of))
            },
            _ => Json::Obj(of),
        },
        other => other,
    }
}

fn merge_fields(bf: Vec<(String, Json)>, of: Vec<(String, Json)>) -> (r: Vec<(String, Json)>)
    ensures
        fields_view(r@) == merged_fields(fields_view(bf@), fields_view(of@)),
    decreases fields_size(fields_view(of@)), 1nat,
{
    let mut of = of;
    if of.len() == 0 {
        return bf;
    }
    let ghost of0 = of@;
    let (k, v) = of.pop().unwrap();
    proof {
        assert(of@ =~= of0.drop_last());
        lemma_fields_view_push(of@, (k, v));
        assert(of0 =~= of@.push((k, v)));
        assert(fields_view(of0).drop_last() =~= fields_view(of@));
        lemma_fields_size_view(of0);
        assert(fields_view(of0).last() == (k@, json_view(v)));
        lemma_fields_view(of0);
    }
    let ghost bfv = fields_view(bf@);
    let mut acc = merge_fields(bf, of);
    proof {
        lemma_fields_view(acc@);
    }
    let ghost acc_v = fields_view(acc@);
    assert(acc_v == merged_fields(bfv, fields_view(of0).drop_last()));
    match find_key(&acc, &k) {
        Some(p) => {
            let (k0, cur) = acc.remove(p);
            let m = merge(cur, v);
            acc.insert(p, (k0, m));
            proof {
                lemma_fields_view(acc@);
                lemma_key_pos_from(acc_v, k@, 0);
                assert(fields_view(acc@) =~= acc_v.update(p as int, (acc_v[p as int].0, json_view(m))));
                assert(field_of(acc_v, k@) == Some(json_view(cur)));
                assert(fields_view(acc@) == set_field(acc_v, k@, merged(json_view(cur), json_view(v))));
            }
        },
        None => {
            let ghost before = acc@;
            acc.push((k, v));
            proof {
                lemma_fields_view_push(before, (k, v));
                assert(field_of(acc_v, k@) == None::<JsonView>);
                assert(merged(JsonView::Null, json_view(v)) == json_view(v));
                assert(fields_view(acc@) == set_field(acc_v, k@, merged(JsonView::Null, json_view(v))));
            }
        },
    }
    assert(fields_view(acc@) == merged_fields(bfv, fields_view(of0)));
    acc
}

/// Size of a field list is one less than its object and bounds every value.
proof fn lemma_fields_size_view(f: Seq<(String, Json)>)
    ensures
        f.len() > 0 ==> fields_size(fields_view(f)) == fields_size(fields_view(f.drop_last()))
            + json_size(json_view(f.last().1)),
        f.len() > 0 ==> json_size(json_view(f.last().1)) <= fields_size(fields_view(f)),
        f.len() > 0 ==> fields_size(fields_view(f.drop_last())) < fields_size(fields_view(f)),
{
    if f.len() > 0 {
        assert(fields_view(f).drop_last() == fields_view(f.drop_last()));
        assert(json_size(json_view(f.last().1)) >= 1) by {
            reveal_with_fuel(json_size, 1);
        }
    }
}

/// No two fields share a key.
pub open spec fn unique_keys(f: Seq<(Seq<char>, JsonView)>) -> bool {
    forall|i: int, j: int| 0 <= i < j < f.len() ==> #[trigger] f[i].0 != #[trigger] f[j].0
}

/// Every object met along `path` in `j` has unique keys.
pub open spec fn keys_unique_along(j: JsonView, path: Seq<Seq<char>>) -> bool
    decreases path.len(),
{
    if path.len() == 0 {
        true
    } else {
        match j {
            JsonView::Obj(f) => unique_keys(f) && match field_of(f, path[0]) {
                Some(c) => keys_unique_along(c, path.skip(1)),
                None => true,
            },
            _ => true,
        }
    }
}

/// `key_pos` depends only on the keys.
proof fn lemma_key_pos_same_keys(f: Seq<(Seq<char>, JsonView)>, g: Seq<(Seq<char>, JsonView)>, k: Seq<char>, i: int)
    requires
        f.len() == g.len(),
        forall|j: int| 0 <= j < f.len() ==> #[trigger] f[j].0 == g[j].0,
    ensures
        key_pos_from(f, k, i) == key_pos_from(g, k, i),
    decreases f.len() - i,
{
    if 0 <= i < f.len() && f[i].0 != k {
        lemma_key_pos_same_keys(f, g, k, i + 1);
    }
}

/// Looking a key up after `set_field`: the set key gives the new value, any
/// other key what it gave before.
pub proof fn lemma_set_field_get(f: Seq<(Seq<char>, JsonView)>, k: Seq<char>, v: JsonView, k2: Seq<char>)
    ensures
        field_of(set_field(f, k, v), k2) == if k2 == k {
            Some(v)
        } else {
            field_of(f, k2)
        },
{
    let r = set_field(f, k, v);
    lemma_key_pos_from(f, k, 0);
    lemma_key_pos_from(f, k2, 0);
    lemma_key_pos_from(r, k2, 0);
    let p = key_pos(f, k);
    if 0 <= p < f.len() {
        assert forall|j: int| 0 <= j < f.len() implies #[trigger] r[j].0 == f[j].0 by {}
        lemma_key_pos_same_keys(r, f, k2, 0);
        if k2 == k {
            assert(key_pos(r, k2) == p);
        }
    } else {
        if k2 == k {
            assert(r[f.len() as int].0 == k);
            if key_pos(r, k2) != f.len() as int {
                assert(key_pos(r, k2) == -1 || key_pos(r, k2) < f.len());
            }
        } else {
            let q = key_pos(f, k2);
            if 0 <= q < f.len() {
                lemma_key_pos_first(r, k2, q);
            } else {
                assert forall|j: int| 0 <= j < r.len() implies #[trigger] r[j].0 != k2 by {
                    if j < f.len() {
                        assert(r[j] == f[j]);
                    }
                }
                if key_pos(r, k2) != -1 {
                    assert(r[key_pos(r, k2)].0 == k2);
                }
            }
        }
    }
}

/// When `k` first occurs at `p`, `key_pos` finds `p`.
pub proof fn lemma_key_pos_first(f: Seq<(Seq<char>, JsonView)>, k: Seq<char>, p: int)
    requires
        0 <= p < f.len(),
        f[p].0 == k,
        forall|j: int| 0 <= j < p ==> #[trigger] f[j].0 != k,
    ensures
        key_pos(f, k) == p,
{
    lemma_key_pos_from(f, k, 0);
    let q = key_pos(f, k);
    if q == -1 {
        assert(f[p].0 != k);
    } else if q < p {
        assert(f[q].0 != k);
    } else if q > p {
        assert(f[p].0 != k);
    }
}

/// Field lookup in a merged object, for an overlay with unique keys: a key
/// of the overlay gives the merge of the base's value (or `null`) with the
/// overlay's; any other key keeps the base's value.
pub proof fn lemma_merged_fields_get(bf: Seq<(Seq<char>, JsonView)>, of: Seq<(Seq<char>, JsonView)>, k: Seq<char>)
    requires
        unique_keys(of),
    ensures
        field_of(merged_fields(bf, of), k) == match field_of(of, k) {
            Some(v) => Some(
                merged(
                    match field_of(bf, k) {
                        Some(b) => b,
                        None => JsonView::Null,
                    },
                    v,
                ),
            ),
            None => field_of(bf, k),
        },
    decreases of.len(),
{
    if of.len() > 0 {
        let rest = of.drop_last();
        let kl = of.last().0;
        let vl = of.last().1;
        assert forall|i: int, j: int| 0 <= i < j < rest.len() implies #[trigger] rest[i].0
            != #[trigger] rest[j].0 by {
            assert(rest[i] == of[i] && rest[j] == of[j]);
        }
        lemma_merged_fields_get(bf, rest, k);
        lemma_merged_fields_get(bf, rest, kl);
        let acc = merged_fields(bf, rest);
        let cur = match field_of(acc, kl) {
            Some(c) => c,
            None => JsonView::Null,
        };
        lemma_set_field_get(acc, kl, merged(cur, vl), k);
        // `kl` does not occur in `rest`, and `of` is `rest` with `(kl, vl)` pushed.
        assert forall|j: int| 0 <= j < rest.len() implies #[trigger] rest[j].0 != kl by {
            assert(rest[j] == of[j]);
            assert(of[j].0 != of[of.len() - 1].0);
        }
        lemma_key_pos_from(rest, kl, 0);
        if key_pos(rest, kl) != -1 {
            assert(rest[key_pos(rest, kl)].0 == kl);
        }
        assert(of =~= rest.push((kl, vl)));
        lemma_set_field_get(rest, kl, vl, k);
        assert(set_field(rest, kl, vl) =~= of);
    }
}

/// The overlay wins at a leaf: where the overlay holds a non-object value
/// at `path` (through objects with unique keys), so does the merge,
/// whatever the base holds.
pub proof fn lemma_merged_overlay_leaf(b: JsonView, o: JsonView, path: Seq<Seq<char>>, x: JsonView)
    requires
        get_path(o, path) == Some(x),
        !(x is Obj),
        keys_unique_along(o, path),
    ensures
        get_path(merged(b, o), path) == Some(x),
    decreases path.len(),
{
    if path.len() > 0 {
        let c = o.get(path[0])->0;
        let of = o->Obj_0;
        match b {
            JsonView::Obj(bf) => {
                lemma_merged_fields_get(bf, of, path[0]);
                let bc = match field_of(bf, path[0]) {
                    Some(v) => v,
                    None => JsonView::Null,
                };
                lemma_merged_overlay_leaf(bc, c, path.skip(1), x);
            },
            _ => {},
        }
    }
}

/// The base keeps the fields the overlay does not mention.
pub proof fn lemma_merged_keeps_base(b: JsonView, o: JsonView, k: Seq<char>)
    requires
        b is Obj,
        o matches JsonView::Obj(of) && unique_keys(of) && field_of(of, k) is None,
    ensures
        merged(b, o).get(k) == b.get(k),
{
    lemma_merged_fields_get(b->Obj_0, o->Obj_0, k);
}

} // verus!

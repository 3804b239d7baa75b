//! A structured configuration document: a tree of null, boolean, integer,
//! string, array and object nodes, with the merge-patch overlay used to
//! layer an override document onto a base document.

use vstd::prelude::*;

verus! {

/// A node of a structured configuration document.
pub enum Json {
    Null,
    Bool(bool),
    Int(i64),
    Str(String),
    Arr(Vec<Json>),
    Obj(Vec<(String, Json)>),
}

/// The mathematical value of a document node.
pub ghost enum JsonV {
    Null,
    Bool(bool),
    Int(int),
    Str(Seq<char>),
    Arr(Seq<JsonV>),
    Obj(Seq<(Seq<char>, JsonV)>),
}

impl View for Json {
    type V = JsonV;

    open spec fn view(&self) -> JsonV
        decreases self,
    {
        match self {
            Json::Null => JsonV::Null,
            Json::Bool(b) => JsonV::Bool(*b),
            Json::Int(i) => JsonV::Int(*i as int),
            Json::Str(s) => JsonV::Str(s@),
            Json::Arr(a) => JsonV::Arr(arr_view(a@)),
            Json::Obj(o) => JsonV::Obj(entries_view(o@)),
        }
    }
}

pub open spec fn arr_view(a: Seq<Json>) -> Seq<JsonV>
    decreases a,
{
    if a.len() == 0 {
        Seq::empty()
    } else {
        arr_view(a.subrange(0, a.len() - 1)).push(a[a.len() - 1]@)
    }
}

pub open spec fn entries_view(es: Seq<(String, Json)>) -> Seq<(Seq<char>, JsonV)>
    decreases es,
{
    if es.len() == 0 {
        Seq::empty()
    } else {
        entries_view(es.subrange(0, es.len() - 1)).push(
            (es[es.len() - 1].0@, es[es.len() - 1].1@),
        )
    }
}

pub proof fn lemma_arr_view(a: Seq<Json>)
    ensures
        arr_view(a).len() == a.len(),
        forall|i: int| 0 <= i < a.len() ==> arr_view(a)[i] == a[i]@,
    decreases a.len(),
{
    if a.len() > 0 {
        let sub = a.subrange(0, a.len() - 1);
        lemma_arr_view(sub);
        assert(arr_view(a) == arr_view(sub).push(a[a.len() - 1]@));
        assert forall|i: int| 0 <= i < a.len() implies arr_view(a)[i] == a[i]@ by {
            if i < a.len() - 1 {
                assert(arr_view(a)[i] == arr_view(sub)[i]);
                assert(sub[i] == a[i]);
            }
        }
    }
}

pub proof fn lemma_entries_view(es: Seq<(String, Json)>)
    ensures
        entries_view(es).len() == es.len(),
        forall|i: int| 0 <= i < es.len()
            ==> entries_view(es)[i] == (es[i].0@, es[i].1@),
    decreases es.len(),
{
    if es.len() > 0 {
        let sub = es.subrange(0, es.len() - 1);
        lemma_entries_view(sub);
        assert(entries_view(es) == entries_view(sub).push(
            (es[es.len() - 1].0@, es[es.len() - 1].1@),
        ));
        assert forall|i: int| 0 <= i < es.len() implies entries_view(es)[i] == (
            es[i].0@,
            es[i].1@,
        ) by {
            if i < es.len() - 1 {
                assert(entries_view(es)[i] == entries_view(sub)[i]);
                assert(sub[i] == es[i]);
            }
        }
    }
}

/// Index of the first entry of `es` whose key is `k`, or -1 when no
/// entry has that key.
pub open spec fn key_index(es: Seq<(Seq<char>, JsonV)>, k: Seq<char>) -> int
    decreases es.len(),
{
    if es.len() == 0 {
        -1
    } else if es[0].0 == k {
        0
    } else {
        let r = key_index(es.drop_first(), k);
        if r < 0 {
            -1
        } else {
            r + 1
        }
    }
}

/// The value stored under key `k`, taken from the first entry with that key.
pub open spec fn jv_lookup(es: Seq<(Seq<char>, JsonV)>, k: Seq<char>) -> Option<JsonV> {
    let i = key_index(es, k);
    if i >= 0 {
        Some(es[i].1)
    } else {
        None
    }
}

pub proof fn lemma_key_index(es: Seq<(Seq<char>, JsonV)>, k: Seq<char>)
    ensures
        key_index(es, k) == -1 ==> forall|i: int| 0 <= i < es.len() ==> es[i].0 != k,
        key_index(es, k) >= 0 ==> {
            let r = key_index(es, k);
            r < es.len() && es[r].0 == k && (forall|i: int| 0 <= i < r ==> es[i].0 != k)
        },
    decreases es.len(),
{
    if es.len() > 0 && es[0].0 != k {
        let t = es.drop_first();
        lemma_key_index(t, k);
        if key_index(es, k) == -1 {
            assert forall|i: int| 0 <= i < es.len() implies es[i].0 != k by {
                if i > 0 {
                    assert(t[i - 1] == es[i]);
                }
            }
        } else {
            let r = key_index(es, k);
            assert(t[r - 1] == es[r]);
            assert forall|i: int| 0 <= i < r implies es[i].0 != k by {
                if i > 0 {
                    assert(t[i - 1] == es[i]);
                }
            }
        }
    }
}

/// The merge-patch overlay: object keys merge recursively, a null patch
/// value removes the key, and every other patch value replaces the base.
pub open spec fn jv_merge(base: JsonV, patch: JsonV) -> JsonV
    decreases patch, 0int,
{
    match patch {
        JsonV::Obj(pes) => {
            let bes = match base {
                JsonV::Obj(b) => b,
                _ => Seq::empty(),
            };
            JsonV::Obj(jv_merge_entries(bes, pes, 0))
        },
        _ => patch,
    }
}

/// Applies the patch entries `pes[i..]` to the base entries `bes`, in order.
pub open spec fn jv_merge_entries(
    bes: Seq<(Seq<char>, JsonV)>,
    pes: Seq<(Seq<char>, JsonV)>,
    i: int,
) -> Seq<(Seq<char>, JsonV)>
    decreases pes, pes.len() - i,
{
    if i < 0 || i >= pes.len() {
        bes
    } else {
        jv_merge_entries(jv_apply_entry(bes, pes[i].0, pes[i].1), pes, i + 1)
    }
}

/// Applies one patch entry: null removes the key, any other value is
/// merged onto the present value (or onto null when the key is absent).
pub open spec fn jv_apply_entry(
    bes: Seq<(Seq<char>, JsonV)>,
    k: Seq<char>,
    v: JsonV,
) -> Seq<(Seq<char>, JsonV)>
    decreases v, 1int,
{
    let i = key_index(bes, k);
    match v {
        JsonV::Null => if i >= 0 {
            bes.remove(i)
        } else {
            bes
        },
        _ => {
            let base_v = if i >= 0 {
                bes[i].1
            } else {
                JsonV::Null
            };
            let m = jv_merge(base_v, v);
            if i >= 0 {
                bes.update(i, (k, m))
            } else {
                bes.push((k, m))
            }
        },
    }
}

pub proof fn lemma_entries_view_remove(es: Seq<(String, Json)>, j: int)
    requires
        0 <= j < es.len(),
    ensures
        entries_view(es.remove(j)) == entries_view(es).remove(j),
{
    lemma_entries_view(es);
    lemma_entries_view(es.remove(j));
    assert(entries_view(es.remove(j)) =~= entries_view(es).remove(j));
}

pub proof fn lemma_entries_view_insert(es: Seq<(String, Json)>, j: int, p: (String, Json))
    requires
        0 <= j <= es.len(),
    ensures
        entries_view(es.insert(j, p)) == entries_view(es).insert(j, (p.0@, p.1@)),
{
    lemma_entries_view(es);
    lemma_entries_view(es.insert(j, p));
    assert(entries_view(es.insert(j, p)) =~= entries_view(es).insert(j, (p.0@, p.1@)));
}

pub proof fn lemma_entries_view_push(es: Seq<(String, Json)>, p: (String, Json))
    ensures
        entries_view(es.push(p)) == entries_view(es).push((p.0@, p.1@)),
{
    lemma_entries_view(es);
    lemma_entries_view(es.push(p));
    assert(entries_view(es.push(p)) =~= entries_view(es).push((p.0@, p.1@)));
}

/// Index of the first base entry whose key equals `k`, if any.
#[verifier::loop_isolation(false)]
pub fn find_key(es: &Vec<(String, Json)>, k: &String) -> (r: Option<usize>)
    ensures
        match r {
            Some(j) => j < es@.len() && key_index(entries_view(es@), k@) == j as int,
            None => key_index(entries_view(es@), k@) == -1,
        },
{
    let mut i: usize = 0;
    while i < es.len()
        invariant
            i <= es@.len(),
            forall|m: int| 0 <= m < i ==> es@[m].0@ != k@,
        decreases es@.len() - i,
    {
        if es[i].0 == *k {
            proof {
                lemma_entries_view(es@);
                let ev = entries_view(es@);
                lemma_key_index(ev, k@);
                let r = key_index(ev, k@);
                assert(ev[i as int].0 == k@);
                if r >= 0 && r < i as int {
                    assert(ev[r] == (es@[r].0@, es@[r].1@));
                    assert(false);
                }
            }
            return Some(i);
        }
        i += 1;
    }
    proof {
        lemma_entries_view(es@);
        let ev = entries_view(es@);
        lemma_key_index(ev, k@);
        let r = key_index(ev, k@);
        if r >= 0 {
            assert(ev[r] == (es@[r].0@, es@[r].1@));
            assert(false);
        }
    }
    None
}

impl Json {
    /// A deep copy of the node.
    #[verifier::loop_isolation(false)]
    pub fn deep_clone(&self) -> (r: Json)
        ensures
            r@ == self@,
        decreases self,
    {
        match self {
            Json::Null => Json::Null,
            Json::Bool(b) => Json::Bool(*b),
            Json::Int(i) => Json::Int(*i),
            Json::Str(s) => Json::Str(s.clone()),
            Json::Arr(a) => {
                let mut out: Vec<Json> = Vec::new();
                let mut i: usize = 0;
                while i < a.len()
                    invariant
                        i <= a@.len(),
                        out@.len() == i,
                        forall|j: int| 0 <= j < i ==> out@[j]@ == a@[j]@,
                    decreases a@.len() - i,
                {
                    proof {
                        assert(*a == self->Arr_0);
                        assert(decreases_to!(*self => self->Arr_0));
                        assert(decreases_to!(*a => a@));
                        assert(decreases_to!(a@ => a@[i as int]));
                    }
                    let c = a[i].deep_clone();
                    out.push(c);
                    i += 1;
                }
                proof {
                    lemma_arr_view(a@);
                    lemma_arr_view(out@);
                    assert(arr_view(out@) =~= arr_view(a@));
                }
                Json::Arr(out)
            },
            Json::Obj(es) => {
                let mut out: Vec<(String, Json)> = Vec::new();
                let mut i: usize = 0;
                while i < es.len()
                    invariant
                        i <= es@.len(),
                        out@.len() == i,
                        forall|j: int| 0 <= j < i
                            ==> out@[j].0@ == es@[j].0@ && out@[j].1@ == es@[j].1@,
                    decreases es@.len() - i,
                {
                    proof {
                        assert(*es == self->Obj_0);
                        assert(decreases_to!(*self => self->Obj_0));
                        assert(decreases_to!(*es => es@));
                        assert(decreases_to!(es@ => es@[i as int]));
                        assert(decreases_to!(es@[i as int] => es@[i as int].1));
                    }
                    let key = es[i].0.clone();
                    let val = es[i].1.deep_clone();
                    out.push((key, val));
                    i += 1;
                }
                proof {
                    lemma_entries_view(es@);
                    lemma_entries_view(out@);
                    assert(entries_view(out@) =~= entries_view(es@));
                }
                Json::Obj(out)
            },
        }
    }

    /// Merges `patch` onto `self` with merge-patch semantics: object keys
    /// merge recursively, a null patch value removes the key, and every
    /// other patch value replaces the base value wholesale.
    #[verifier::loop_isolation(false)]
    pub fn merge(self, patch: &Json) -> (r: Json)
        ensures
            r@ == jv_merge(self@, patch@),
        decreases patch,
    {
        match patch {
            Json::Obj(pes) => {
                let ghost pv = entries_view(pes@);
                let mut es: Vec<(String, Json)> = match self {
                    Json::Obj(b) => b,
                    _ => Vec::new(),
                };
                let ghost bes0 = entries_view(es@);
                proof {
                    lemma_entries_view(pes@);
                }
                let mut i: usize = 0;
                while i < pes.len()
                    invariant
                        i <= pes@.len(),
                        pv == entries_view(pes@),
                        pv.len() == pes@.len(),
                        forall|m: int| 0 <= m < pes@.len()
                            ==> pv[m] == (pes@[m].0@, pes@[m].1@),
                        jv_merge_entries(entries_view(es@), pv, i as int)
                            == jv_merge_entries(bes0, pv, 0),
                    decreases pes@.len() - i,
                {
                    let ghost es0 = es@;
                    let ghost ev0 = entries_view(es@);
                    let ghost k = pes@[i as int].0@;
                    let ghost v = pes@[i as int].1@;
                    proof {
                        lemma_entries_view(es@);
                        lemma_key_index(ev0, k);
                        assert(*pes == patch->Obj_0);
                        assert(decreases_to!(*patch => patch->Obj_0));
                        assert(decreases_to!(*pes => pes@));
                        assert(decreases_to!(pes@ => pes@[i as int]));
                        assert(decreases_to!(pes@[i as int] => pes@[i as int].1));
                    }
                    let j_opt = find_key(&es, &pes[i].0);
                    let is_null = matches!(&pes[i].1, Json::Null);
                    if is_null {
                        if let Some(j) = j_opt {
                            es.remove(j);
                            proof {
                                lemma_entries_view_remove(es0, j as int);
                            }
                        }
                        proof {
                            assert(entries_view(es@) == jv_apply_entry(ev0, k, v));
                        }
                    } else {
                        match j_opt {
                            Some(j) => {
                                let pair = es.remove(j);
                                let merged = pair.1.merge(&pes[i].1);
                                es.insert(j, (pair.0, merged));
                                proof {
                                    lemma_entries_view_remove(es0, j as int);
                                    lemma_entries_view_insert(
                                        es0.remove(j as int),
                                        j as int,
                                        (pair.0, merged),
                                    );
                                    assert(entries_view(es@)
                                        =~= ev0.update(j as int, (k, jv_merge(ev0[j as int].1, v))));
                                    assert(entries_view(es@) == jv_apply_entry(ev0, k, v));
                                }
                            },
                            None => {
                                let merged = Json::Null.merge(&pes[i].1);
                                es.push((pes[i].0.clone(), merged));
                                proof {
                                    lemma_entries_view_push(es0, (pes@[i as int].0, merged));
                                    assert(es@ == es0.push((pes@[i as int].0, merged)));
                                    assert(entries_view(es@) == jv_apply_entry(ev0, k, v));
                                }
                            },
                        }
                    }
                    proof {
                        assert(jv_merge_entries(ev0, pv, i as int)
                            == jv_merge_entries(jv_apply_entry(ev0, pv[i as int].0, pv[i as int].1), pv, i + 1));
                    }
                    i += 1;
                }
                proof {
                    assert(jv_merge_entries(entries_view(es@), pv, i as int)
                        == entries_view(es@));
                }
                Json::Obj(es)
            },
            _ => patch.deep_clone(),
        }
    }
}

/// Looks a key up in an object's entry list, returning a reference to the
/// value of the first entry with that key.
pub fn obj_lookup<'a>(es: &'a Vec<(String, Json)>, k: &str) -> (r: Option<&'a Json>)
    ensures
        match r {
            Some(x) => jv_lookup(entries_view(es@), k@) == Some(x@),
            None => jv_lookup(entries_view(es@), k@) is None,
        },
{
    let ks = String::from_str(k);
    match find_key(es, &ks) {
        Some(j) => {
            proof {
                lemma_entries_view(es@);
            }
            Some(&es[j].1)
        },
        None => None,
    }
}

/// No entry of `es` has key `k`.
pub open spec fn no_key(es: Seq<(Seq<char>, JsonV)>, k: Seq<char>) -> bool {
    forall|i: int| 0 <= i < es.len() ==> es[i].0 != k
}

/// At most one entry of `es` has key `k`.
pub open spec fn at_most_one_key(es: Seq<(Seq<char>, JsonV)>, k: Seq<char>) -> bool {
    forall|i: int, j: int|
        0 <= i < j < es.len() ==> !(es[i].0 == k && es[j].0 == k)
}

proof fn lemma_no_key_lookup(es: Seq<(Seq<char>, JsonV)>, k: Seq<char>)
    requires
        no_key(es, k),
    ensures
        jv_lookup(es, k) is None,
{
    lemma_key_index(es, k);
    let r = key_index(es, k);
    if r >= 0 {
        assert(es[r].0 != k);
        assert(false);
    }
}

proof fn lemma_apply_other_key(
    bes: Seq<(Seq<char>, JsonV)>,
    k: Seq<char>,
    k2: Seq<char>,
    v: JsonV,
)
    requires
        k2 != k,
    ensures
        no_key(bes, k) ==> no_key(jv_apply_entry(bes, k2, v), k),
        at_most_one_key(bes, k) ==> at_most_one_key(jv_apply_entry(bes, k2, v), k),
{
    lemma_key_index(bes, k2);
    let r = jv_apply_entry(bes, k2, v);
    let i2 = key_index(bes, k2);
    assert forall|m: int| 0 <= m < r.len() && r[m].0 == k implies exists|n: int|
        0 <= n < bes.len() && bes[n].0 == k && #[trigger] bes_src(bes, r, m, n) by {
        if v is Null {
            if i2 >= 0 {
                if m < i2 {
                    assert(r[m] == bes[m]);
                    assert(bes_src(bes, r, m, m));
                } else {
                    assert(r[m] == bes[m + 1]);
                    assert(bes_src(bes, r, m, m + 1));
                }
            } else {
                assert(r[m] == bes[m]);
                assert(bes_src(bes, r, m, m));
            }
        } else {
            if i2 >= 0 {
                if m == i2 {
                    assert(r[m].0 == k2);
                } else {
                    assert(r[m] == bes[m]);
                    assert(bes_src(bes, r, m, m));
                }
            } else {
                if m < bes.len() {
                    assert(r[m] == bes[m]);
                    assert(bes_src(bes, r, m, m));
                } else {
                    assert(r[m].0 == k2);
                }
            }
        }
    }
}

/// Entry `m` of the derived sequence `r` came from entry `n` of `bes`,
/// and the source index is monotone in the result index.
spec fn bes_src(
    bes: Seq<(Seq<char>, JsonV)>,
    r: Seq<(Seq<char>, JsonV)>,
    m: int,
    n: int,
) -> bool {
    r[m] == bes[n] && m <= n <= m + 1
}

proof fn lemma_merge_entries_no_key(
    bes: Seq<(Seq<char>, JsonV)>,
    pes: Seq<(Seq<char>, JsonV)>,
    k: Seq<char>,
    i: int,
)
    requires
        0 <= i <= pes.len(),
        forall|j: int| i <= j < pes.len() && #[trigger] pes[j].0 == k ==> pes[j].1 is Null,
        at_most_one_key(bes, k),
        no_key(bes, k) || exists|j: int| i <= j < pes.len() && #[trigger] pes[j].0 == k,
    ensures
        no_key(jv_merge_entries(bes, pes, i), k),
    decreases pes.len() - i,
{
    if i == pes.len() {
        assert(no_key(bes, k));
    } else {
        let bes2 = jv_apply_entry(bes, pes[i].0, pes[i].1);
        if pes[i].0 == k {
            lemma_key_index(bes, k);
            let r = key_index(bes, k);
            if r >= 0 {
                assert(bes2 == bes.remove(r));
                assert forall|m: int| 0 <= m < bes2.len() implies bes2[m].0 != k by {
                    if m < r {
                        assert(bes2[m] == bes[m]);
                    } else {
                        assert(bes2[m] == bes[m + 1]);
                    }
                }
            } else {
                assert(bes2 == bes);
            }
            assert(no_key(bes2, k));
            lemma_merge_entries_no_key(bes2, pes, k, i + 1);
        } else {
            lemma_apply_other_key(bes, k, pes[i].0, pes[i].1);
            if !no_key(bes2, k) {
                let j = choose|j: int| i <= j < pes.len() && #[trigger] pes[j].0 == k;
                assert(i + 1 <= j < pes.len());
            }
            lemma_merge_entries_no_key(bes2, pes, k, i + 1);
        }
    }
}

/// Law: merging a patch that binds a key to null removes that key from
/// the result, even when the base object binds it, provided the patch
/// binds the key only to null and the base binds it at most once.
pub proof fn lemma_merge_removes_null_key(b: JsonV, p: JsonV, k: Seq<char>)
    requires
        b is Obj ==> at_most_one_key(b->Obj_0, k),
        p is Obj,
        jv_lookup(p->Obj_0, k) == Some(JsonV::Null),
        forall|j: int|
            0 <= j < p->Obj_0.len() && #[trigger] p->Obj_0[j].0 == k ==> p->Obj_0[j].1 is Null,
    ensures
        jv_merge(b, p) is Obj,
        jv_lookup(jv_merge(b, p)->Obj_0, k) is None,
{
    let pes = p->Obj_0;
    let bes: Seq<(Seq<char>, JsonV)> = match b {
        JsonV::Obj(x) => x,
        _ => Seq::empty(),
    };
    lemma_key_index(pes, k);
    let r = key_index(pes, k);
    assert(pes[r].0 == k);
    lemma_merge_entries_no_key(bes, pes, k, 0);
    lemma_no_key_lookup(jv_merge_entries(bes, pes, 0), k);
}

} // verus!

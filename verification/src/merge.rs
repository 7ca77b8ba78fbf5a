//! A dynamically typed configuration tree and its deep merge.
//!
//! Updates arriving from clients are JSON-like trees.  Merging an update `U`
//! into a base `B` works structurally: object entries merge by key, where a
//! null update entry deletes the base entry; array entries merge by index,
//! where a null update entry keeps the base entry; any other update value
//! replaces the base wholesale.

use vstd::prelude::*;

verus! {

/// A JSON-like tree of configuration data.
#[derive(Debug, PartialEq)]
pub enum Value {
    Null,
    Bool(bool),
    /// A number, carried as the bit pattern of its 64-bit floating form so
    /// the tree itself stays exact.
    Number(u64),
    Str(String),
    Array(Vec<Value>),
    Object(Vec<(String, Value)>),
}

/// Mathematical model of a `Value`.
pub ghost enum ValueModel {
    Null,
    Bool(bool),
    Number(u64),
    Str(Seq<char>),
    Array(Seq<ValueModel>),
    Object(Seq<(Seq<char>, ValueModel)>),
}

/// The model of a tree.
pub open spec fn value_model(v: Value) -> ValueModel
    decreases v,
{
    match v {
        Value::Null => ValueModel::Null,
        Value::Bool(b) => ValueModel::Bool(b),
        Value::Number(n) => ValueModel::Number(n),
        Value::Str(s) => ValueModel::Str(s@),
        Value::Array(items) => ValueModel::Array(array_model(items@)),
        Value::Object(fields) => ValueModel::Object(object_model(fields@)),
    }
}

/// The models of an array's elements.
pub open spec fn array_model(s: Seq<Value>) -> Seq<ValueModel>
    decreases s,
{
    if s.len() == 0 {
        Seq::empty()
    } else {
        seq![value_model(s[0])] + array_model(s.subrange(1, s.len() as int))
    }
}

/// The models of an object's entries.
pub open spec fn object_model(s: Seq<(String, Value)>) -> Seq<(Seq<char>, ValueModel)>
    decreases s,
{
    if s.len() == 0 {
        Seq::empty()
    } else {
        seq![(s[0].0@, value_model(s[0].1))] + object_model(s.subrange(1, s.len() as int))
    }
}

/// `array_model` maps the elements one for one.
pub proof fn lemma_array_model(s: Seq<Value>)
    ensures
        array_model(s).len() == s.len(),
        forall|i: int| 0 <= i < s.len() ==> array_model(s)[i] == value_model(#[trigger] s[i]),
    decreases s.len(),
{
    if s.len() > 0 {
        lemma_array_model(s.subrange(1, s.len() as int));
        assert forall|i: int| 0 <= i < s.len() implies array_model(s)[i] == value_model(
            #[trigger] s[i],
        ) by {
            if i > 0 {
                assert(s.subrange(1, s.len() as int)[i - 1] == s[i]);
            }
        }
    }
}

/// `object_model` maps the entries one for one.
pub proof fn lemma_object_model(s: Seq<(String, Value)>)
    ensures
        object_model(s).len() == s.len(),
        forall|i: int| 0 <= i < s.len() ==> object_model(s)[i] == ((#[trigger] s[i]).0@,
        value_model(s[i].1)),
    decreases s.len(),
{
    if s.len() > 0 {
        lemma_object_model(s.subrange(1, s.len() as int));
        assert forall|i: int| 0 <= i < s.len() implies object_model(s)[i] == ((#[trigger] s[i]).0@,
        value_model(s[i].1)) by {
            if i > 0 {
                assert(s.subrange(1, s.len() as int)[i - 1] == s[i]);
            }
        }
    }
}

impl View for Value {
    type V = ValueModel;

    open spec fn view(&self) -> ValueModel {
        value_model(*self)
    }
}

impl Clone for Value {
    /// A deep copy, equal to the original in the model.
    fn clone(&self) -> (r: Self)
        ensures
            r@ == self@,
    {
        clone_value(self)
    }
}

/// First index at or after `i` whose entry has key `k`, or the length.
pub open spec fn obj_index_from(s: Seq<(Seq<char>, ValueModel)>, k: Seq<char>, i: int) -> int
    decreases s.len() - i,
{
    if i < 0 || i >= s.len() {
        s.len() as int
    } else if s[i].0 == k {
        i
    } else {
        obj_index_from(s, k, i + 1)
    }
}

/// The value under key `k`, going by the first matching entry.
pub open spec fn obj_get(s: Seq<(Seq<char>, ValueModel)>, k: Seq<char>) -> Option<ValueModel> {
    let ix = obj_index_from(s, k, 0);
    if ix < s.len() {
        Some(s[ix].1)
    } else {
        None
    }
}

/// The entries from index `i` on, with every entry keyed `k` removed.
pub open spec fn obj_remove_from(s: Seq<(Seq<char>, ValueModel)>, k: Seq<char>, i: int) -> Seq<
    (Seq<char>, ValueModel),
>
    decreases s.len() - i,
{
    if i < 0 || i >= s.len() {
        Seq::empty()
    } else if s[i].0 == k {
        obj_remove_from(s, k, i + 1)
    } else {
        seq![s[i]] + obj_remove_from(s, k, i + 1)
    }
}

/// Index of the last non-null element, or -1 when every element is null.
pub open spec fn last_non_null(u: Seq<ValueModel>) -> int
    decreases u.len(),
{
    if u.len() == 0 {
        -1
    } else if u.last() is Null {
        last_non_null(u.drop_last())
    } else {
        u.len() - 1
    }
}

/// Length of a merged array: base entries survive, and non-null update
/// entries extend the array, padding any gap with nulls.
pub open spec fn merged_array_len(b: Seq<ValueModel>, u: Seq<ValueModel>) -> int {
    let ext = last_non_null(u) + 1;
    if ext > b.len() {
        ext
    } else {
        b.len() as int
    }
}

/// The deep merge of update `upd` into `base`.
pub open spec fn merged(base: ValueModel, upd: ValueModel) -> ValueModel
    decreases upd, 0int,
{
    match upd {
        ValueModel::Array(u) => match base {
            ValueModel::Array(b) => ValueModel::Array(merge_array(b, u)),
            _ => upd,
        },
        ValueModel::Object(u) => match base {
            ValueModel::Object(b) => ValueModel::Object(merge_object_from(b, u, 0)),
            _ => upd,
        },
        _ => upd,
    }
}

/// Object merge, folding the update's entries in order into the base:
/// a null entry deletes its key, an entry whose key exists merges into it,
/// and a fresh key is appended.
pub open spec fn merge_object_from(
    b: Seq<(Seq<char>, ValueModel)>,
    u: Seq<(Seq<char>, ValueModel)>,
    j: int,
) -> Seq<(Seq<char>, ValueModel)>
    decreases u, u.len() - j,
{
    if j < 0 || j >= u.len() {
        b
    } else {
        let k = u[j].0;
        let item = u[j].1;
        let b2 = if item is Null {
            obj_remove_from(b, k, 0)
        } else {
            let ix = obj_index_from(b, k, 0);
            if ix < b.len() {
                b.update(ix, (k, merged(b[ix].1, item)))
            } else {
                b.push((k, item))
            }
        };
        merge_object_from(b2, u, j + 1)
    }
}

/// One slot of a merged array: a non-null update entry merges into the base
/// entry (or stands alone past the base's end); otherwise the base entry is
/// kept, with null filling any gap.
pub open spec fn merge_array_at(b: Seq<ValueModel>, u: Seq<ValueModel>, i: int) -> ValueModel
    decreases u, 1int,
{
    if 0 <= i < u.len() && !(u[i] is Null) {
        if 0 <= i < b.len() {
            merged(b[i], u[i])
        } else {
            merged(ValueModel::Null, u[i])
        }
    } else if 0 <= i < b.len() {
        b[i]
    } else {
        ValueModel::Null
    }
}

/// Array merge, element by element.
pub open spec fn merge_array(b: Seq<ValueModel>, u: Seq<ValueModel>) -> Seq<ValueModel>
    decreases u, 2int,
{
    Seq::new(merged_array_len(b, u) as nat, |i: int| merge_array_at(b, u, i))
}

/// No entry of `s` carries key `k`.
pub open spec fn no_key(s: Seq<(Seq<char>, ValueModel)>, k: Seq<char>) -> bool {
    forall|x: int| 0 <= x < s.len() ==> (#[trigger] s[x]).0 != k
}

/// A key absent from every entry is not found.
proof fn lemma_no_key_index(s: Seq<(Seq<char>, ValueModel)>, k: Seq<char>, i: int)
    requires
        no_key(s, k),
        0 <= i,
    ensures
        obj_index_from(s, k, i) == s.len(),
    decreases s.len() - i,
{
    if i < s.len() {
        lemma_no_key_index(s, k, i + 1);
    }
}

/// The scan for a key never leaves `[i, s.len()]`.
proof fn lemma_obj_index_bounds(s: Seq<(Seq<char>, ValueModel)>, k: Seq<char>, i: int)
    requires
        0 <= i <= s.len(),
    ensures
        i <= obj_index_from(s, k, i) <= s.len(),
    decreases s.len() - i,
{
    if i < s.len() {
        lemma_obj_index_bounds(s, k, i + 1);
    }
}

/// Removal leaves no entry with the removed key.
proof fn lemma_remove_no_key(s: Seq<(Seq<char>, ValueModel)>, k: Seq<char>, i: int)
    ensures
        no_key(obj_remove_from(s, k, i), k),
    decreases s.len() - i,
{
    if i < 0 || i >= s.len() {
    } else {
        lemma_remove_no_key(s, k, i + 1);
        if s[i].0 != k {
            let rest = obj_remove_from(s, k, i + 1);
            assert forall|x: int|
                0 <= x < (seq![s[i]] + rest).len() implies (#[trigger] (seq![s[i]] + rest)[x]).0
                != k by {
                if x > 0 {
                    assert((seq![s[i]] + rest)[x] == rest[x - 1]);
                }
            }
        }
    }
}

/// Removing one key cannot introduce another.
proof fn lemma_remove_preserves_no_key(
    s: Seq<(Seq<char>, ValueModel)>,
    k2: Seq<char>,
    k: Seq<char>,
    i: int,
)
    requires
        no_key(s, k),
    ensures
        no_key(obj_remove_from(s, k2, i), k),
    decreases s.len() - i,
{
    if i < 0 || i >= s.len() {
    } else {
        lemma_remove_preserves_no_key(s, k2, k, i + 1);
        if s[i].0 != k2 {
            let rest = obj_remove_from(s, k2, i + 1);
            assert forall|x: int|
                0 <= x < (seq![s[i]] + rest).len() implies (#[trigger] (seq![s[i]] + rest)[x]).0
                != k by {
                if x > 0 {
                    assert((seq![s[i]] + rest)[x] == rest[x - 1]);
                }
            }
        }
    }
}

/// Folding update entries whose keys all differ from `k` never introduces `k`.
proof fn lemma_fold_preserves_no_key(
    b: Seq<(Seq<char>, ValueModel)>,
    u: Seq<(Seq<char>, ValueModel)>,
    k: Seq<char>,
    j: int,
)
    requires
        no_key(b, k),
        0 <= j,
        forall|jj: int| j <= jj < u.len() ==> (#[trigger] u[jj]).0 != k,
    ensures
        no_key(merge_object_from(b, u, j), k),
    decreases u.len() - j,
{
    if j >= u.len() {
    } else {
        let k2 = u[j].0;
        let item = u[j].1;
        let b2 = if item is Null {
            obj_remove_from(b, k2, 0)
        } else {
            let ix = obj_index_from(b, k2, 0);
            if ix < b.len() {
                b.update(ix, (k2, merged(b[ix].1, item)))
            } else {
                b.push((k2, item))
            }
        };
        if item is Null {
            lemma_remove_preserves_no_key(b, k2, k, 0);
        } else {
            let ix = obj_index_from(b, k2, 0);
            lemma_obj_index_bounds(b, k2, 0);
            if ix < b.len() {
                assert forall|x: int| 0 <= x < b2.len() implies (#[trigger] b2[x]).0 != k by {
                    if x != ix {
                        assert(b2[x] == b[x]);
                    }
                }
            } else {
                assert forall|x: int| 0 <= x < b2.len() implies (#[trigger] b2[x]).0 != k by {
                    if x < b.len() {
                        assert(b2[x] == b[x]);
                    }
                }
            }
        }
        lemma_fold_preserves_no_key(b2, u, k, j + 1);
    }
}

/// After the null entry at index `j` is folded in, the key stays absent.
proof fn lemma_delete_from(
    b: Seq<(Seq<char>, ValueModel)>,
    u: Seq<(Seq<char>, ValueModel)>,
    i: int,
    j: int,
)
    requires
        0 <= i <= j < u.len(),
        u[j].1 is Null,
        forall|jj: int| j < jj < u.len() ==> (#[trigger] u[jj]).0 != u[j].0,
    ensures
        no_key(merge_object_from(b, u, i), u[j].0),
    decreases j - i,
{
    let k = u[j].0;
    if i == j {
        let b2 = obj_remove_from(b, k, 0);
        lemma_remove_no_key(b, k, 0);
        lemma_fold_preserves_no_key(b2, u, k, j + 1);
    } else {
        let k2 = u[i].0;
        let item = u[i].1;
        let b2 = if item is Null {
            obj_remove_from(b, k2, 0)
        } else {
            let ix = obj_index_from(b, k2, 0);
            if ix < b.len() {
                b.update(ix, (k2, merged(b[ix].1, item)))
            } else {
                b.push((k2, item))
            }
        };
        lemma_delete_from(b2, u, i + 1, j);
    }
}

/// Law: a null object entry deletes its key.  After the merge, looking the
/// key up finds nothing, provided no later update entry reintroduces it.
pub proof fn lemma_merge_object_null_deletes(
    b: Seq<(Seq<char>, ValueModel)>,
    u: Seq<(Seq<char>, ValueModel)>,
    j: int,
)
    requires
        0 <= j < u.len(),
        u[j].1 is Null,
        forall|jj: int| j < jj < u.len() ==> (#[trigger] u[jj]).0 != u[j].0,
    ensures
        obj_get(merge_object_from(b, u, 0), u[j].0) is None,
{
    lemma_delete_from(b, u, 0, j);
    lemma_no_key_index(merge_object_from(b, u, 0), u[j].0, 0);
}

/// Law: a null array entry keeps the base element, and the merged array never
/// shrinks below the base.
pub proof fn lemma_merge_array_null_skips(b: Seq<ValueModel>, u: Seq<ValueModel>, i: int)
    requires
        0 <= i < u.len(),
        u[i] is Null,
        i < b.len(),
    ensures
        merge_array(b, u).len() >= b.len(),
        merge_array(b, u)[i] == b[i],
{
    assert(merge_array(b, u)[i] == merge_array_at(b, u, i));
}

/// Law: an update that is not an array and not an object replaces the base
/// wholesale, whatever the base holds.
pub proof fn lemma_merge_scalar_replaces(base: ValueModel, upd: ValueModel)
    requires
        !(upd is Array),
        !(upd is Object),
    ensures
        merged(base, upd) == upd,
{
}

/// Pushing an element extends the model by that element's model.
proof fn lemma_array_model_push(s: Seq<Value>, v: Value)
    ensures
        array_model(s.push(v)) == array_model(s).push(value_model(v)),
{
    lemma_array_model(s);
    lemma_array_model(s.push(v));
    assert forall|i: int| 0 <= i < s.len() + 1 implies array_model(s.push(v))[i] == array_model(
        s,
    ).push(value_model(v))[i] by {
        if i < s.len() {
            assert(s.push(v)[i] == s[i]);
        } else {
            assert(s.push(v)[i] == v);
        }
    }
    assert(array_model(s.push(v)) =~= array_model(s).push(value_model(v)));
}

/// Pushing an entry extends the model by that entry's model.
proof fn lemma_object_model_push(s: Seq<(String, Value)>, p: (String, Value))
    ensures
        object_model(s.push(p)) == object_model(s).push((p.0@, value_model(p.1))),
{
    lemma_object_model(s);
    lemma_object_model(s.push(p));
    assert forall|i: int| 0 <= i < s.len() + 1 implies object_model(s.push(p))[i] == object_model(
        s,
    ).push((p.0@, value_model(p.1)))[i] by {
        if i < s.len() {
            assert(s.push(p)[i] == s[i]);
        } else {
            assert(s.push(p)[i] == p);
        }
    }
    assert(object_model(s.push(p)) =~= object_model(s).push((p.0@, value_model(p.1))));
}

/// Updating an entry updates the model in place.
proof fn lemma_object_model_update(s: Seq<(String, Value)>, i: int, p: (String, Value))
    requires
        0 <= i < s.len(),
    ensures
        object_model(s.update(i, p)) == object_model(s).update(i, (p.0@, value_model(p.1))),
{
    lemma_object_model(s);
    lemma_object_model(s.update(i, p));
    assert forall|x: int| 0 <= x < s.len() implies object_model(s.update(i, p))[x] == object_model(
        s,
    ).update(i, (p.0@, value_model(p.1)))[x] by {
        if x != i {
            assert(s.update(i, p)[x] == s[x]);
        } else {
            assert(s.update(i, p)[x] == p);
        }
    }
    assert(object_model(s.update(i, p)) =~= object_model(s).update(i, (p.0@, value_model(p.1))));
}

/// A deep copy of a tree, equal to the original in the model.
#[verifier::loop_isolation(false)]
pub fn clone_value(v: &Value) -> (r: Value)
    ensures
        r@ == v@,
    decreases v,
{
    match v {
        Value::Null => Value::Null,
        Value::Bool(b) => Value::Bool(*b),
        Value::Number(n) => Value::Number(*n),
        Value::Str(s) => Value::Str(s.clone()),
        Value::Array(items) => {
            let mut out: Vec<Value> = Vec::new();
            let n = items.len();
            for i in 0..n
                invariant
                    array_model(out@) == array_model(items@.subrange(0, i as int)),
                decreases n - i,
            {
                proof {
                    assert(decreases_to!(*v => *items));
                    assert(decreases_to!(*items => items@[i as int]));
                }
                let ghost prev = out@;
                let item = clone_value(&items[i]);
                let ghost itemg = item;
                out.push(item);
                proof {
                    lemma_array_model_push(prev, itemg);
                    lemma_array_model_push(items@.subrange(0, i as int), items@[i as int]);
                    assert(items@.subrange(0, i as int).push(items@[i as int]) =~= items@.subrange(
                        0,
                        i + 1,
                    ));
                }
            }
            proof {
                assert(items@.subrange(0, n as int) =~= items@);
            }
            Value::Array(out)
        },
        Value::Object(fields) => {
            let mut out: Vec<(String, Value)> = Vec::new();
            let n = fields.len();
            for i in 0..n
                invariant
                    object_model(out@) == object_model(fields@.subrange(0, i as int)),
                decreases n - i,
            {
                proof {
                    assert(decreases_to!(*v => *fields));
                    assert(decreases_to!(*fields => fields@[i as int]));
                    assert(decreases_to!(fields@[i as int] => fields@[i as int].1));
                }
                let ghost prev = out@;
                let key = fields[i].0.clone();
                let val = clone_value(&fields[i].1);
                let pair = (key, val);
                let ghost pairg = pair;
                out.push(pair);
                proof {
                    lemma_object_model_push(prev, pairg);
                    lemma_object_model_push(fields@.subrange(0, i as int), fields@[i as int]);
                    assert(fields@.subrange(0, i as int).push(fields@[i as int]) =~= fields@
                        .subrange(0, i + 1));
                }
            }
            proof {
                assert(fields@.subrange(0, n as int) =~= fields@);
            }
            Value::Object(out)
        },
    }
}

/// First index in `s` whose entry's key reads `k`, or the length of `s`.
#[verifier::loop_isolation(false)]
fn find_key(s: &Vec<(String, Value)>, k: &String) -> (r: usize)
    ensures
        r == obj_index_from(object_model(s@), k@, 0),
        r <= s@.len(),
{
    let n = s.len();
    proof {
        lemma_object_model(s@);
    }
    let mut i: usize = 0;
    while i < n
        invariant
            0 <= i <= n,
            obj_index_from(object_model(s@), k@, 0) == obj_index_from(
                object_model(s@),
                k@,
                i as int,
            ),
        decreases n - i,
    {
        if s[i].0 == *k {
            return i;
        }
        i = i + 1;
    }
    i
}

/// `s` without the entries keyed `k`, every entry deep-copied.
#[verifier::loop_isolation(false)]
fn obj_remove_exec(s: &Vec<(String, Value)>, k: &String) -> (r: Vec<(String, Value)>)
    ensures
        object_model(r@) == obj_remove_from(object_model(s@), k@, 0),
{
    let n = s.len();
    proof {
        lemma_object_model(s@);
    }
    let mut out: Vec<(String, Value)> = Vec::new();
    let mut i: usize = 0;
    proof {
        assert(Seq::empty() + obj_remove_from(object_model(s@), k@, 0) =~= obj_remove_from(
            object_model(s@),
            k@,
            0,
        ));
    }
    while i < n
        invariant
            0 <= i <= n,
            obj_remove_from(object_model(s@), k@, 0) == object_model(out@) + obj_remove_from(
                object_model(s@),
                k@,
                i as int,
            ),
        decreases n - i,
    {
        if s[i].0 == *k {
        } else {
            let ghost prev = out@;
            let key = s[i].0.clone();
            let val = clone_value(&s[i].1);
            let pair = (key, val);
            let ghost pairg = pair;
            out.push(pair);
            proof {
                lemma_object_model_push(prev, pairg);
                assert(object_model(prev).push(object_model(s@)[i as int]) + obj_remove_from(
                    object_model(s@),
                    k@,
                    i + 1,
                ) =~= object_model(prev) + obj_remove_from(object_model(s@), k@, i as int));
            }
        }
        i = i + 1;
    }
    proof {
        assert(object_model(out@) + obj_remove_from(object_model(s@), k@, n as int) =~= object_model(
            out@,
        ));
    }
    out
}

/// The deep merge of update `upd` into `base`, leaving both inputs intact.
pub fn merge_values(base: &Value, upd: &Value) -> (r: Value)
    ensures
        r@ == merged(base@, upd@),
    decreases upd,
{
    match upd {
        Value::Array(u) => match base {
            Value::Array(b) => {
                proof {
                    assert(decreases_to!(*upd => *u));
                    assert(decreases_to!(*u => u@));
                }
                Value::Array(merge_array_exec(b, u))
            },
            _ => clone_value(upd),
        },
        Value::Object(u) => match base {
            Value::Object(b) => {
                proof {
                    assert(decreases_to!(*upd => *u));
                    assert(decreases_to!(*u => u@));
                }
                Value::Object(merge_object_exec(b, u))
            },
            _ => clone_value(upd),
        },
        _ => clone_value(upd),
    }
}

/// Array merge over vectors, mirroring `merge_array`.
#[verifier::loop_isolation(false)]
fn merge_array_exec(b: &Vec<Value>, u: &Vec<Value>) -> (r: Vec<Value>)
    ensures
        array_model(r@) == merge_array(array_model(b@), array_model(u@)),
    decreases u@,
{
    let ghost bm = array_model(b@);
    let ghost um = array_model(u@);
    proof {
        lemma_array_model(b@);
        lemma_array_model(u@);
        assert(um.subrange(0, um.len() as int) =~= um);
    }

    // Find one past the last non-null update element.
    let mut ext: usize = u.len();
    while ext > 0 && matches!(u[ext - 1], Value::Null)
        invariant
            ext <= u.len(),
            last_non_null(um) == last_non_null(um.subrange(0, ext as int)),
        decreases ext,
    {
        proof {
            let p = um.subrange(0, ext as int);
            assert(p.last() == um[ext - 1]);
            assert(p.drop_last() =~= um.subrange(0, ext - 1));
        }
        ext = ext - 1;
    }
    proof {
        let p = um.subrange(0, ext as int);
        if ext > 0 {
            assert(p.last() == um[ext - 1]);
            assert(!(p.last() is Null));
        }
        assert(last_non_null(um) == ext - 1);
    }

    let rlen = if ext > b.len() {
        ext
    } else {
        b.len()
    };
    let null_base = Value::Null;
    let mut out: Vec<Value> = Vec::new();
    let mut i: usize = 0;
    while i < rlen
        invariant
            rlen == merged_array_len(bm, um),
            0 <= i <= rlen,
            array_model(out@).len() == i,
            forall|x: int| 0 <= x < i ==> array_model(out@)[x] == merge_array_at(bm, um, x),
        decreases rlen - i,
    {
        proof {
            if i < u.len() {
                assert(decreases_to!(u@ => u@[i as int]));
            }
        }
        let next: Value = if i < u.len() && !matches!(u[i], Value::Null) {
            if i < b.len() {
                merge_values(&b[i], &u[i])
            } else {
                merge_values(&null_base, &u[i])
            }
        } else if i < b.len() {
            clone_value(&b[i])
        } else {
            Value::Null
        };
        proof {
            assert(next@ == merge_array_at(bm, um, i as int));
        }
        let ghost prev = out@;
        let ghost nextg = next;
        out.push(next);
        proof {
            lemma_array_model_push(prev, nextg);
        }
        i = i + 1;
    }
    proof {
        assert(merged_array_len(bm, um) >= 0);
        assert(merge_array(bm, um).len() == merged_array_len(bm, um));
        assert forall|x: int| 0 <= x < rlen implies array_model(out@)[x] == merge_array(bm, um)[x] by {
            assert(merge_array(bm, um)[x] == merge_array_at(bm, um, x));
        }
        assert(array_model(out@) =~= merge_array(bm, um));
    }
    out
}

/// Object merge over vectors, mirroring `merge_object_from`.
#[verifier::loop_isolation(false)]
fn merge_object_exec(b: &Vec<(String, Value)>, u: &Vec<(String, Value)>) -> (r: Vec<
    (String, Value),
>)
    ensures
        object_model(r@) == merge_object_from(object_model(b@), object_model(u@), 0),
    decreases u@,
{
    let ghost um = object_model(u@);
    proof {
        lemma_object_model(u@);
        lemma_object_model(b@);
    }

    // Start from a deep copy of the base and fold the update entries in.
    let mut cur: Vec<(String, Value)> = Vec::new();
    let n0 = b.len();
    let mut i: usize = 0;
    while i < n0
        invariant
            0 <= i <= n0,
            object_model(cur@) == object_model(b@).subrange(0, i as int),
        decreases n0 - i,
    {
        let ghost prev = cur@;
        let key = b[i].0.clone();
        let val = clone_value(&b[i].1);
        let pair = (key, val);
        let ghost pairg = pair;
        cur.push(pair);
        proof {
            lemma_object_model_push(prev, pairg);
            assert(object_model(b@).subrange(0, i as int).push(object_model(b@)[i as int])
                =~= object_model(b@).subrange(0, i + 1));
        }
        i = i + 1;
    }
    proof {
        assert(object_model(b@).subrange(0, n0 as int) =~= object_model(b@));
    }

    let nu = u.len();
    let mut j: usize = 0;
    while j < nu
        invariant
            0 <= j <= nu,
            merge_object_from(object_model(b@), um, 0) == merge_object_from(
                object_model(cur@),
                um,
                j as int,
            ),
        decreases nu - j,
    {
        proof {
            assert(decreases_to!(u@ => u@[j as int]));
            assert(decreases_to!(u@[j as int] => u@[j as int].1));
        }
        match &u[j].1 {
            Value::Null => {
                let removed = obj_remove_exec(&cur, &u[j].0);
                cur = removed;
            },
            _ => {
                let ix = find_key(&cur, &u[j].0);
                proof {
                    lemma_object_model(cur@);
                }
                if ix < cur.len() {
                    let merged_v = merge_values(&cur[ix].1, &u[j].1);
                    let key = u[j].0.clone();
                    let pair = (key, merged_v);
                    let ghost pairg = pair;
                    let ghost prev = cur@;
                    cur.set(ix, pair);
                    proof {
                        lemma_object_model_update(prev, ix as int, pairg);
                    }
                } else {
                    let key = u[j].0.clone();
                    let val = clone_value(&u[j].1);
                    let pair = (key, val);
                    let ghost pairg = pair;
                    let ghost prev = cur@;
                    cur.push(pair);
                    proof {
                        lemma_object_model_push(prev, pairg);
                    }
                }
            },
        }
        j = j + 1;
    }
    proof {
        assert(merge_object_from(object_model(cur@), um, nu as int) == object_model(cur@));
    }
    cur
}

} // verus!

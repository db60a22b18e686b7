//! A self-contained JSON-like value model: the payloads that tasks carry
//! (configs, inputs, results, contexts) are values of this type, and the
//! bundler and redaction logic are specified over its ghost mirror.

use vstd::prelude::*;

verus! {

/// Executable JSON-like value.
#[derive(Debug, PartialEq, Eq)]
pub enum JsonVal {
    Null,
    Bool(bool),
    Int(i64),
    Str(String),
    Arr(Vec<JsonVal>),
    Obj(Vec<(String, JsonVal)>),
}

/// Ghost mirror of `JsonVal`, used in specifications.
#[verifier::ext_equal]
pub enum JsonData {
    Null,
    Bool(bool),
    Int(int),
    Str(Seq<char>),
    Arr(Seq<JsonData>),
    Obj(Seq<(Seq<char>, JsonData)>),
}

/// The ghost value that a `JsonVal` stands for.
pub open spec fn jview(v: JsonVal) -> JsonData
    decreases v,
{
    match v {
        JsonVal::Null => JsonData::Null,
        JsonVal::Bool(b) => JsonData::Bool(b),
        JsonVal::Int(i) => JsonData::Int(i as int),
        JsonVal::Str(s) => JsonData::Str(s@),
        JsonVal::Arr(items) => JsonData::Arr(jview_arr(items@)),
        JsonVal::Obj(pairs) => JsonData::Obj(jview_obj(pairs@)),
    }
}

pub open spec fn jview_arr(s: Seq<JsonVal>) -> Seq<JsonData>
    decreases s,
{
    if s.len() == 0 {
        Seq::empty()
    } else {
        jview_arr(s.drop_last()).push(jview(s.last()))
    }
}

pub open spec fn jview_obj(s: Seq<(String, JsonVal)>) -> Seq<(Seq<char>, JsonData)>
    decreases s,
{
    if s.len() == 0 {
        Seq::empty()
    } else {
        jview_obj(s.drop_last()).push((s.last().0@, jview(s.last().1)))
    }
}

impl View for JsonVal {
    type V = JsonData;

    #[verifier::inline]
    open spec fn view(&self) -> JsonData {
        jview(*self)
    }
}

/// `jview_arr` maps the sequence elementwise.
pub proof fn lemma_jview_arr(s: Seq<JsonVal>)
    ensures
        jview_arr(s).len() == s.len(),
        forall|i: int| 0 <= i < s.len() ==> jview_arr(s)[i] == jview(s[i]),
    decreases s,
{
    if s.len() > 0 {
        lemma_jview_arr(s.drop_last());
    }
}

/// `jview_obj` maps the sequence elementwise.
pub proof fn lemma_jview_obj(s: Seq<(String, JsonVal)>)
    ensures
        jview_obj(s).len() == s.len(),
        forall|i: int| 0 <= i < s.len() ==> jview_obj(s)[i] == (s[i].0@, jview(s[i].1)),
    decreases s,
{
    if s.len() > 0 {
        lemma_jview_obj(s.drop_last());
    }
}

/// Value of the first pair whose key is `key`, scanning left to right.
pub open spec fn lookup_pairs(pairs: Seq<(Seq<char>, JsonData)>, key: Seq<char>) -> Option<
    JsonData,
>
    decreases pairs,
{
    if pairs.len() == 0 {
        None
    } else if pairs[0].0 == key {
        Some(pairs[0].1)
    } else {
        lookup_pairs(pairs.drop_first(), key)
    }
}

/// Key lookup on an object value; `None` on anything that is not an object.
pub open spec fn lookup_key(d: JsonData, key: Seq<char>) -> Option<JsonData> {
    match d {
        JsonData::Obj(pairs) => lookup_pairs(pairs, key),
        _ => None,
    }
}

/// Skipping a matchless prefix does not change the result of a lookup.
proof fn lemma_lookup_pairs_skip(pairs: Seq<(Seq<char>, JsonData)>, key: Seq<char>, i: int)
    requires
        0 <= i <= pairs.len(),
        forall|j: int| 0 <= j < i ==> pairs[j].0 != key,
    ensures
        lookup_pairs(pairs, key) == lookup_pairs(pairs.skip(i), key),
    decreases i,
{
    if i > 0 {
        lemma_lookup_pairs_skip(pairs, key, i - 1);
        assert(pairs.skip(i - 1)[0] == pairs[i - 1]);
        assert(pairs.skip(i - 1).drop_first() =~= pairs.skip(i));
    } else {
        assert(pairs.skip(0) =~= pairs);
    }
}

impl JsonVal {
    /// A structurally equal copy of the value.
    #[verifier::loop_isolation(false)]
    pub fn deep_copy(&self) -> (r: JsonVal)
        ensures
            r@ == self@,
        decreases self,
    {
        match self {
            JsonVal::Null => JsonVal::Null,
            JsonVal::Bool(b) => JsonVal::Bool(*b),
            JsonVal::Int(i) => JsonVal::Int(*i),
            JsonVal::Str(s) => JsonVal::Str(s.clone()),
            JsonVal::Arr(items) => {
                let mut out: Vec<JsonVal> = Vec::new();
                let mut k: usize = 0;
                while k < items.len()
                    invariant
                        k <= items.len(),
                        out@.len() == k,
                        forall|i: int| 0 <= i < k ==> jview(out@[i]) == jview(items@[i]),
                    decreases items.len() - k,
                {
                    let c = items[k].deep_copy();
                    out.push(c);
                    k = k + 1;
                }
                proof {
                    lemma_jview_arr(out@);
                    lemma_jview_arr(items@);
                    assert(jview_arr(out@) =~= jview_arr(items@));
                }
                JsonVal::Arr(out)
            },
            JsonVal::Obj(pairs) => {
                let mut out: Vec<(String, JsonVal)> = Vec::new();
                let mut k: usize = 0;
                while k < pairs.len()
                    invariant
                        k <= pairs.len(),
                        out@.len() == k,
                        forall|i: int|
                            0 <= i < k ==> out@[i].0@ == pairs@[i].0@ && jview(out@[i].1) == jview(
                                pairs@[i].1,
                            ),
                    decreases pairs.len() - k,
                {
                    let key = pairs[k].0.clone();
                    let val = pairs[k].1.deep_copy();
                    out.push((key, val));
                    k = k + 1;
                }
                proof {
                    lemma_jview_obj(out@);
                    lemma_jview_obj(pairs@);
                    assert(jview_obj(out@) =~= jview_obj(pairs@));
                }
                JsonVal::Obj(out)
            },
        }
    }

    /// First value stored under `key`, when the value is an object holding it.
    #[verifier::loop_isolation(false)]
    pub fn get<'a>(&'a self, key: &String) -> (r: Option<&'a JsonVal>)
        ensures
            match r {
                Some(v) => lookup_key(self@, key@) == Some(v@),
                None => lookup_key(self@, key@) is None,
            },
    {
        match self {
            JsonVal::Obj(pairs) => {
                proof {
                    lemma_jview_obj(pairs@);
                }
                let mut k: usize = 0;
                while k < pairs.len()
                    invariant
                        k <= pairs.len(),
                        jview(*self) == JsonData::Obj(jview_obj(pairs@)),
                        jview_obj(pairs@).len() == pairs@.len(),
                        forall|i: int|
                            0 <= i < pairs@.len() ==> jview_obj(pairs@)[i] == (
                                pairs@[i].0@,
                                jview(pairs@[i].1),
                            ),
                        forall|j: int| 0 <= j < k ==> pairs@[j].0@ != key@,
                    decreases pairs.len() - k,
                {
                    if pairs[k].0 == *key {
                        proof {
                            lemma_lookup_pairs_skip(jview_obj(pairs@), key@, k as int);
                            assert(jview_obj(pairs@).skip(k as int)[0] == jview_obj(pairs@)[
                                k as int
                            ]);
                        }
                        return Some(&pairs[k].1);
                    }
                    k = k + 1;
                }
                proof {
                    lemma_lookup_pairs_skip(jview_obj(pairs@), key@, pairs@.len() as int);
                    assert(jview_obj(pairs@).skip(pairs@.len() as int) =~= Seq::<(
                        Seq<char>,
                        JsonData,
                    )>::empty());
                }
                None
            },
            _ => None,
        }
    }
}

} // verus!

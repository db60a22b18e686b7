//! The context bundler: assembles a task's effective input by resolving
//! the variable references in its planning-time templates against the
//! cached results of the prior completed tasks of the same flow session.
//!
//! A string of the form `{{node.path.to.value}}` is a variable
//! reference; its dot-separated path is looked up in the merged document
//! `{node_id: result}`. An unresolved reference degrades to null rather
//! than aborting the bundle, so a missing optional value never blocks a
//! run. Bundling is a pure function of its two arguments.

use vstd::prelude::*;
use vstd::string::StrSliceExecFns;

use crate::json::{
    jview, jview_arr, jview_obj, lemma_jview_arr, lemma_jview_obj, lookup_key, JsonData, JsonVal,
};

verus! {

/// A string value of the shape `{{...}}` is a variable reference.
pub open spec fn is_reference(s: Seq<char>) -> bool {
    s.len() >= 4 && s[0] == '{' && s[1] == '{' && s[s.len() - 2] == '}' && s[s.len() - 1] == '}'
}

/// The dotted path between the braces.
pub open spec fn reference_path(s: Seq<char>) -> Seq<char> {
    s.subrange(2, s.len() - 2)
}

/// Position of the first dot, or the length when there is none.
pub open spec fn first_dot(s: Seq<char>) -> int
    decreases s.len(),
{
    if s.len() == 0 {
        0
    } else if s[0] == '.' {
        0
    } else {
        1 + first_dot(s.drop_first())
    }
}

pub proof fn lemma_first_dot_bounds(s: Seq<char>)
    ensures
        0 <= first_dot(s) <= s.len(),
        first_dot(s) < s.len() ==> s[first_dot(s)] == '.',
        forall|j: int| 0 <= j < first_dot(s) ==> s[j] != '.',
    decreases s.len(),
{
    if s.len() > 0 && s[0] != '.' {
        lemma_first_dot_bounds(s.drop_first());
        assert forall|j: int| 0 <= j < first_dot(s) implies s[j] != '.' by {
            if j > 0 {
                assert(s.drop_first()[j - 1] == s[j]);
            }
        }
    }
}

/// A position that is the first dot (or the end, dotless) is `first_dot`.
pub proof fn lemma_first_dot_position(s: Seq<char>, i: int)
    requires
        0 <= i <= s.len(),
        forall|j: int| 0 <= j < i ==> s[j] != '.',
        i < s.len() ==> s[i] == '.',
    ensures
        first_dot(s) == i,
    decreases i,
{
    if s.len() == 0 {
    } else if i == 0 {
    } else {
        assert(s[0] != '.');
        assert forall|j: int| 0 <= j < i - 1 implies s.drop_first()[j] != '.' by {
            assert(s.drop_first()[j] == s[j + 1]);
        }
        if i - 1 < s.drop_first().len() {
            assert(s.drop_first()[i - 1] == s[i]);
        }
        lemma_first_dot_position(s.drop_first(), i - 1);
    }
}

/// The dot-separated segments of a path.
pub open spec fn split_dots(s: Seq<char>) -> Seq<Seq<char>>
    decreases s.len(),
    via split_dots_decreases
{
    if first_dot(s) == s.len() {
        seq![s]
    } else {
        seq![s.subrange(0, first_dot(s))] + split_dots(
            s.subrange(first_dot(s) + 1, s.len() as int),
        )
    }
}

#[via_fn]
proof fn split_dots_decreases(s: Seq<char>) {
    lemma_first_dot_bounds(s);
}

/// Walk a key path into nested objects, step by step.
pub open spec fn lookup_path(d: JsonData, path: Seq<Seq<char>>) -> Option<JsonData>
    decreases path.len(),
{
    if path.len() == 0 {
        Some(d)
    } else {
        match lookup_key(d, path[0]) {
            Some(v) => lookup_path(v, path.drop_first()),
            None => None,
        }
    }
}

/// What a string template value resolves to: a reference resolves to the
/// referenced value, or to null when the path cannot be resolved; any
/// other string stands for itself.
pub open spec fn resolve_str(s: Seq<char>, doc: JsonData) -> JsonData {
    if is_reference(s) {
        match lookup_path(doc, split_dots(reference_path(s))) {
            Some(v) => v,
            None => JsonData::Null,
        }
    } else {
        JsonData::Str(s)
    }
}

/// A template after resolving every string reference against `doc`.
pub open spec fn resolved(t: JsonData, doc: JsonData) -> JsonData
    decreases t,
{
    match t {
        JsonData::Str(s) => resolve_str(s, doc),
        JsonData::Arr(items) => JsonData::Arr(resolved_seq(items, doc)),
        JsonData::Obj(pairs) => JsonData::Obj(resolved_pairs(pairs, doc)),
        other => other,
    }
}

pub open spec fn resolved_seq(items: Seq<JsonData>, doc: JsonData) -> Seq<JsonData>
    decreases items,
{
    if items.len() == 0 {
        Seq::empty()
    } else {
        resolved_seq(items.drop_last(), doc).push(resolved(items.last(), doc))
    }
}

pub open spec fn resolved_pairs(pairs: Seq<(Seq<char>, JsonData)>, doc: JsonData) -> Seq<
    (Seq<char>, JsonData),
>
    decreases pairs,
{
    if pairs.len() == 0 {
        Seq::empty()
    } else {
        resolved_pairs(pairs.drop_last(), doc).push(
            (pairs.last().0, resolved(pairs.last().1, doc)),
        )
    }
}

/// `resolved_seq` maps the sequence elementwise.
pub proof fn lemma_resolved_seq(items: Seq<JsonData>, doc: JsonData)
    ensures
        resolved_seq(items, doc).len() == items.len(),
        forall|i: int|
            0 <= i < items.len() ==> resolved_seq(items, doc)[i] == resolved(items[i], doc),
    decreases items,
{
    if items.len() > 0 {
        lemma_resolved_seq(items.drop_last(), doc);
    }
}

/// `resolved_pairs` maps the sequence elementwise, keeping keys.
pub proof fn lemma_resolved_pairs(pairs: Seq<(Seq<char>, JsonData)>, doc: JsonData)
    ensures
        resolved_pairs(pairs, doc).len() == pairs.len(),
        forall|i: int|
            0 <= i < pairs.len() ==> resolved_pairs(pairs, doc)[i] == (
                pairs[i].0,
                resolved(pairs[i].1, doc),
            ),
    decreases pairs,
{
    if pairs.len() > 0 {
        lemma_resolved_pairs(pairs.drop_last(), doc);
    }
}

/// The merged document of prior results, keyed by node id.
pub open spec fn prior_doc(prior: Seq<(String, JsonVal)>) -> JsonData {
    JsonData::Obj(jview_obj(prior))
}

/// The sub-template stored under `key`, or null when absent.
pub open spec fn template_of(config: JsonData, key: Seq<char>) -> JsonData {
    match lookup_key(config, key) {
        Some(v) => v,
        None => JsonData::Null,
    }
}

/// Whether `s` is a variable reference.
fn is_reference_str(s: &String) -> (r: bool)
    ensures
        r == is_reference(s@),
{
    let n = s.as_str().unicode_len();
    if n < 4 {
        return false;
    }
    let c0 = s.as_str().get_char(0);
    let c1 = s.as_str().get_char(1);
    let c2 = s.as_str().get_char(n - 2);
    let c3 = s.as_str().get_char(n - 1);
    c0 == '{' && c1 == '{' && c2 == '}' && c3 == '}'
}

/// Resolve the dotted path `path` against `doc`, degrading to null when
/// a segment is missing.
fn resolve_path_str(path: &str, doc: &JsonVal) -> (r: JsonVal)
    ensures
        r@ == (match lookup_path(doc@, split_dots(path@)) {
            Some(v) => v,
            None => JsonData::Null,
        }),
{
    let n = path.unicode_len();
    let mut pos: usize = 0;
    let mut cur: &JsonVal = doc;
    proof {
        assert(path@.subrange(0, n as int) =~= path@);
    }
    loop
        invariant
            pos <= n,
            n == path@.len(),
            lookup_path(doc@, split_dots(path@)) == lookup_path(
                cur@,
                split_dots(path@.subrange(pos as int, n as int)),
            ),
        decreases n - pos,
    {
        // scan to the next dot
        let mut j: usize = pos;
        while j < n && path.get_char(j) != '.'
            invariant
                pos <= j <= n,
                n == path@.len(),
                forall|k: int| pos <= k < j ==> path@[k] != '.',
            decreases n - j,
        {
            j = j + 1;
        }
        proof {
            let rem = path@.subrange(pos as int, n as int);
            assert forall|k: int| 0 <= k < j - pos implies rem[k] != '.' by {
                assert(rem[k] == path@[pos + k]);
            }
            if (j as int) < n as int {
                assert(rem[j - pos] == path@[j as int]);
            }
            lemma_first_dot_position(rem, j - pos as int);
        }
        let seg: String = path.substring_char(pos, j).to_owned();
        proof {
            let rem = path@.subrange(pos as int, n as int);
            assert(seg@ == rem.subrange(0, first_dot(rem)));
        }
        let next = cur.get(&seg);
        match next {
            Some(v) => {
                if j == n {
                    // last segment
                    proof {
                        let rem = path@.subrange(pos as int, n as int);
                        assert(first_dot(rem) == rem.len());
                        assert(split_dots(rem) == seq![rem]);
                        assert(seg@ == rem.subrange(0, rem.len() as int));
                        assert(seg@ =~= rem);
                        assert(lookup_key(cur@, rem) == Some(v@));
                        let e = seq![rem].drop_first();
                        assert(e.len() == 0);
                        assert(lookup_path(v@, e) == Some(v@));
                        assert(seq![rem][0] == rem);
                        assert(lookup_path(cur@, seq![rem]) == Some(v@));
                    }
                    return v.deep_copy();
                } else {
                    proof {
                        let rem = path@.subrange(pos as int, n as int);
                        let fd = first_dot(rem);
                        assert(fd == j - pos);
                        assert(split_dots(rem)[0] == rem.subrange(0, fd));
                        assert(split_dots(rem).drop_first() =~= split_dots(
                            rem.subrange(fd + 1, rem.len() as int),
                        ));
                        assert(rem.subrange(fd + 1, rem.len() as int) =~= path@.subrange(
                            j + 1,
                            n as int,
                        ));
                    }
                    cur = v;
                    pos = j + 1;
                }
            },
            None => {
                proof {
                    let rem = path@.subrange(pos as int, n as int);
                    let fd = first_dot(rem);
                    if fd == rem.len() {
                        assert(seg@ =~= rem);
                        assert(split_dots(rem)[0] == rem);
                    } else {
                        assert(split_dots(rem)[0] == rem.subrange(0, fd));
                    }
                    assert(split_dots(rem).len() >= 1);
                }
                return JsonVal::Null;
            },
        }
    }
}

/// A template value with every string reference resolved against `doc`.
#[verifier::loop_isolation(false)]
pub fn resolve_value(t: &JsonVal, doc: &JsonVal) -> (r: JsonVal)
    ensures
        r@ == resolved(t@, doc@),
    decreases t,
{
    match t {
        JsonVal::Null => JsonVal::Null,
        JsonVal::Bool(b) => JsonVal::Bool(*b),
        JsonVal::Int(i) => JsonVal::Int(*i),
        JsonVal::Str(s) => {
            if is_reference_str(s) {
                let nn = s.as_str().unicode_len();
                let p = s.as_str().substring_char(2, nn - 2);
                proof {
                    assert(p@ == reference_path(s@));
                }
                resolve_path_str(p, doc)
            } else {
                JsonVal::Str(s.clone())
            }
        },
        JsonVal::Arr(items) => {
            let mut out: Vec<JsonVal> = Vec::new();
            let mut k: usize = 0;
            while k < items.len()
                invariant
                    k <= items.len(),
                    out@.len() == k,
                    forall|i: int|
                        0 <= i < k ==> jview(out@[i]) == resolved(jview(items@[i]), doc@),
                decreases items.len() - k,
            {
                let c = resolve_value(&items[k], doc);
                out.push(c);
                k = k + 1;
            }
            proof {
                lemma_jview_arr(out@);
                lemma_jview_arr(items@);
                lemma_resolved_seq(jview_arr(items@), doc@);
                assert(jview_arr(out@) =~= resolved_seq(jview_arr(items@), doc@));
            }
            JsonVal::Arr(out)
        },
        JsonVal::Obj(pairs) => {
            let mut out: Vec<(String, JsonVal)> = Vec::new();
            let mut k: usize = 0;
            while k < pairs.len()
                invariant
                    k <= pairs.len(),
                    out@.len() == k,
                    forall|i: int|
                        0 <= i < k ==> out@[i].0@ == pairs@[i].0@ && jview(out@[i].1) == resolved(
                            jview(pairs@[i].1),
                            doc@,
                        ),
                decreases pairs.len() - k,
            {
                let key = pairs[k].0.clone();
                let c = resolve_value(&pairs[k].1, doc);
                out.push((key, c));
                k = k + 1;
            }
            proof {
                lemma_jview_obj(out@);
                lemma_jview_obj(pairs@);
                lemma_resolved_pairs(jview_obj(pairs@), doc@);
                assert(jview_obj(out@) =~= resolved_pairs(jview_obj(pairs@), doc@));
            }
            JsonVal::Obj(out)
        },
    }
}

/// Bundle a task's effective input: resolve the `inputs` and
/// `variables` templates of its planning-time config against the merged
/// document of prior results, keyed by node id. Returns the pair
/// `(resolved inputs, resolved plugin config)`; a config without one of
/// the two templates resolves that side to null.
pub fn bundle_context(config: &JsonVal, prior: &Vec<(String, JsonVal)>) -> (r: (JsonVal, JsonVal))
    ensures
        r.0@ == resolved(template_of(config@, "inputs"@), prior_doc(prior@)),
        r.1@ == resolved(template_of(config@, "variables"@), prior_doc(prior@)),
{
    let mut dp: Vec<(String, JsonVal)> = Vec::new();
    let mut k: usize = 0;
    while k < prior.len()
        invariant
            k <= prior.len(),
            dp@.len() == k,
            forall|i: int|
                0 <= i < k ==> dp@[i].0@ == prior@[i].0@ && jview(dp@[i].1) == jview(prior@[i].1),
        decreases prior.len() - k,
    {
        let key = prior[k].0.clone();
        let val = prior[k].1.deep_copy();
        dp.push((key, val));
        k = k + 1;
    }
    proof {
        lemma_jview_obj(dp@);
        lemma_jview_obj(prior@);
        assert(jview_obj(dp@) =~= jview_obj(prior@));
    }
    let doc = JsonVal::Obj(dp);
    let inputs_key: String = "inputs".to_owned();
    let variables_key: String = "variables".to_owned();
    let resolved_inputs = match config.get(&inputs_key) {
        Some(t) => resolve_value(t, &doc),
        None => JsonVal::Null,
    };
    let resolved_config = match config.get(&variables_key) {
        Some(t) => resolve_value(t, &doc),
        None => JsonVal::Null,
    };
    (resolved_inputs, resolved_config)
}

/// Bundling is deterministic: the same task configuration resolved
/// against the same prior outputs yields the same payload, however often
/// the bundle is repeated; `bundle_context` pins its results to this
/// pure function of its two arguments.
pub proof fn lemma_bundling_deterministic(
    c1: JsonData,
    d1: JsonData,
    c2: JsonData,
    d2: JsonData,
)
    requires
        c1 == c2,
        d1 == d2,
    ensures
        resolved(c1, d1) == resolved(c2, d2),
{
}

} // verus!

//! Redaction of credential-bearing header maps: whatever structured
//! payload is persisted as a task's `context` first has every value in
//! its `headers` map replaced by a fixed sentinel string, so that secret
//! header values are usable in memory during execution but never stored.

use vstd::prelude::*;

use crate::json::{jview, jview_obj, lemma_jview_obj, JsonData, JsonVal};

verus! {

/// The fixed marker written in place of every header value.
pub open spec fn sentinel_spec() -> Seq<char> {
    "REDACTED_FROM_VIEWING_HERE_FOR_SECURITY_REASONS_BY_ANYTHING"@
}

pub fn sentinel() -> (r: &'static str)
    ensures
        r@ == sentinel_spec(),
{
    "REDACTED_FROM_VIEWING_HERE_FOR_SECURITY_REASONS_BY_ANYTHING"
}

/// The key under which request headers are stored in a context payload.
pub open spec fn headers_key_spec() -> Seq<char> {
    "headers"@
}

/// A headers map after redaction: the same keys, every value replaced by
/// the sentinel. A headers entry that is not an object is replaced by an
/// empty object, so no unrecognized shape can smuggle a value through.
pub open spec fn redacted_headers_value(h: JsonData) -> JsonData {
    match h {
        JsonData::Obj(hp) => JsonData::Obj(
            Seq::new(hp.len(), |i: int| (hp[i].0, JsonData::Str(sentinel_spec()))),
        ),
        _ => JsonData::Obj(Seq::empty()),
    }
}

/// A context payload after redaction: every top-level `headers` entry has
/// its value redacted; everything else is unchanged. A payload that is
/// not an object carries no headers map and is unchanged.
pub open spec fn redacted_context(c: JsonData) -> JsonData {
    match c {
        JsonData::Obj(pairs) => JsonData::Obj(
            Seq::new(
                pairs.len(),
                |i: int|
                    if pairs[i].0 == headers_key_spec() {
                        (pairs[i].0, redacted_headers_value(pairs[i].1))
                    } else {
                        pairs[i]
                    },
            ),
        ),
        _ => c,
    }
}

/// Every `headers` entry of `d` is an object all of whose values are the
/// sentinel string: no original header value survives in `d`.
pub open spec fn headers_conceal_values(d: JsonData) -> bool {
    match d {
        JsonData::Obj(pairs) => forall|i: int|
            0 <= i < pairs.len() && pairs[i].0 == headers_key_spec()
                ==> #[trigger] value_is_all_sentinel(pairs[i].1),
        _ => true,
    }
}

/// `h` is an object and every one of its values is the sentinel string.
pub open spec fn value_is_all_sentinel(h: JsonData) -> bool {
    match h {
        JsonData::Obj(hp) => forall|j: int|
            0 <= j < hp.len() ==> #[trigger] hp[j].1 == JsonData::Str(sentinel_spec()),
        _ => false,
    }
}

/// Redaction conceals every header value: whatever the context was, the
/// redacted payload holds only the sentinel under its `headers` maps.
pub proof fn lemma_redaction_conceals(c: JsonData)
    ensures
        headers_conceal_values(redacted_context(c)),
{
}

fn redact_headers_value(h: &JsonVal) -> (r: JsonVal)
    ensures
        r@ == redacted_headers_value(h@),
{
    match h {
        JsonVal::Obj(hp) => {
            let mut out: Vec<(String, JsonVal)> = Vec::new();
            let mut k: usize = 0;
            while k < hp.len()
                invariant
                    k <= hp.len(),
                    out@.len() == k,
                    forall|i: int|
                        0 <= i < k ==> out@[i].0@ == hp@[i].0@ && jview(out@[i].1) == JsonData::Str(
                            sentinel_spec(),
                        ),
                decreases hp.len() - k,
            {
                let key = hp[k].0.clone();
                out.push((key, JsonVal::Str(sentinel().to_owned())));
                k = k + 1;
            }
            proof {
                lemma_jview_obj(out@);
                lemma_jview_obj(hp@);
                assert(jview_obj(out@) =~= Seq::new(
                    jview_obj(hp@).len(),
                    |i: int| (jview_obj(hp@)[i].0, JsonData::Str(sentinel_spec())),
                ));
            }
            JsonVal::Obj(out)
        },
        _ => JsonVal::Obj(Vec::new()),
    }
}

/// Copy of `context` with every top-level `headers` map redacted: same
/// keys, every header value replaced by the sentinel. The argument, used
/// in memory for execution, stays unredacted.
pub fn redact_headers_from_context(context: &JsonVal) -> (r: JsonVal)
    ensures
        r@ == redacted_context(context@),
        headers_conceal_values(r@),
{
    proof {
        lemma_redaction_conceals(context@);
    }
    match context {
        JsonVal::Obj(pairs) => {
            let hk: String = "headers".to_owned();
            let mut out: Vec<(String, JsonVal)> = Vec::new();
            let mut k: usize = 0;
            while k < pairs.len()
                invariant
                    k <= pairs.len(),
                    hk@ == headers_key_spec(),
                    out@.len() == k,
                    forall|i: int|
                        0 <= i < k ==> #[trigger] out@[i].0@ == pairs@[i].0@ && jview(out@[i].1)
                            == (if pairs@[i].0@ == headers_key_spec() {
                            redacted_headers_value(jview(pairs@[i].1))
                        } else {
                            jview(pairs@[i].1)
                        }),
                decreases pairs.len() - k,
            {
                let key = pairs[k].0.clone();
                if pairs[k].0 == hk {
                    let rv = redact_headers_value(&pairs[k].1);
                    out.push((key, rv));
                } else {
                    let cv = pairs[k].1.deep_copy();
                    out.push((key, cv));
                }
                k = k + 1;
            }
            proof {
                lemma_jview_obj(out@);
                lemma_jview_obj(pairs@);
                assert(jview_obj(out@) =~= Seq::new(
                    jview_obj(pairs@).len(),
                    |i: int|
                        if jview_obj(pairs@)[i].0 == headers_key_spec() {
                            (jview_obj(pairs@)[i].0, redacted_headers_value(jview_obj(pairs@)[i].1))
                        } else {
                            jview_obj(pairs@)[i]
                        },
                ));
            }
            JsonVal::Obj(out)
        },
        _ => context.deep_copy(),
    }
}

} // verus!

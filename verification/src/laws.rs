use vstd::prelude::*;
use crate::values::{ValueModel, pairs_get, pairs_has};
use crate::decls::{DeclModel, distinct_names, is_decl_name};
use crate::json::{
    doc_get, doc_has, shape_value, shape_of_value, doc_of_pairs, unknown_warnings,
};
use crate::json_run::{JsonStateM, json_state};
use crate::prompt_run::{PromptAnswer, prompt_values};
use crate::errors::WarningModel;

verus! {

/// Every entry of a prompt-driven run's mapping is the reply recorded for
/// its declaration, and every name in the mapping belongs to a declaration
/// that was answered.
pub proof fn lemma_prompt_pairs(decls: Seq<DeclModel>, hist: Seq<PromptAnswer>, n: int)
    requires
        distinct_names(decls),
        0 <= n <= decls.len(),
        n <= hist.len(),
    ensures
        forall|j: int| #![trigger hist[j]] 0 <= j < n ==> match hist[j] {
            PromptAnswer::Skip => true,
            PromptAnswer::Answered { default, reply } => pairs_get(
                prompt_values(decls, hist, n),
                decls[j].name,
            ) == Some(reply),
        },
        forall|k: Seq<char>|
            pairs_has(prompt_values(decls, hist, n), k) ==> exists|j: int|
                0 <= j < n && (#[trigger] hist[j]) is Answered && decls[j].name == k,
    decreases n,
{
    if n > 0 {
        lemma_prompt_pairs(decls, hist, n - 1);
        let prev = prompt_values(decls, hist, n - 1);
        let cur = prompt_values(decls, hist, n);
        match hist[n - 1] {
            PromptAnswer::Skip => {
                assert(cur == prev);
            },
            PromptAnswer::Answered { default, reply } => {
                let nm = decls[n - 1].name;
                assert(cur == prev.push((nm, reply)));
                assert(cur.drop_last() =~= prev);
                assert(cur.last() == (nm, reply));
                assert forall|j: int| #![trigger hist[j]] 0 <= j < n implies match hist[j] {
                    PromptAnswer::Skip => true,
                    PromptAnswer::Answered { default: d2, reply: r2 } => pairs_get(
                        cur,
                        decls[j].name,
                    ) == Some(r2),
                } by {
                    match hist[j] {
                        PromptAnswer::Skip => {},
                        PromptAnswer::Answered { default: d2, reply: r2 } => {
                            if j == n - 1 {
                                assert(pairs_get(cur, nm) == Some(reply));
                            } else {
                                assert(decls[j].name != nm);
                                assert(pairs_get(cur, decls[j].name) == pairs_get(
                                    prev,
                                    decls[j].name,
                                ));
                            }
                        },
                    }
                }
                assert forall|k: Seq<char>| pairs_has(cur, k) implies exists|j: int|
                    0 <= j < n && (#[trigger] hist[j]) is Answered && decls[j].name == k by {
                    if k == nm {
                        assert(0 <= n - 1 < n && hist[n - 1] is Answered && decls[n - 1].name
                            == k);
                    } else {
                        assert(pairs_get(cur, k) == pairs_get(prev, k));
                        assert(pairs_has(prev, k));
                    }
                }
            },
        }
    }
}

/// For all declaration lists and either prompt-driven source (interactive
/// or automatic), the set of names present in the final mapping equals
/// exactly the set of declarations judged applicable at the time each was
/// evaluated: no extra entries, none missing.
pub proof fn lemma_prompt_domain(decls: Seq<DeclModel>, hist: Seq<PromptAnswer>, n: int)
    requires
        distinct_names(decls),
        0 <= n <= decls.len(),
        n <= hist.len(),
    ensures
        forall|j: int|
            0 <= j < n ==> (pairs_has(prompt_values(decls, hist, n), decls[j].name)
                <==> (#[trigger] hist[j]) is Answered),
        forall|k: Seq<char>|
            pairs_has(prompt_values(decls, hist, n), k) ==> is_decl_name(decls, k),
{
    lemma_prompt_pairs(decls, hist, n);
    let cur = prompt_values(decls, hist, n);
    assert forall|j: int|
        0 <= j < n implies (pairs_has(cur, decls[j].name) <==> (#[trigger] hist[j])
        is Answered) by {
        match hist[j] {
            PromptAnswer::Skip => {
                if pairs_has(cur, decls[j].name) {
                    let j2 = choose|j2: int|
                        0 <= j2 < n && (#[trigger] hist[j2]) is Answered && decls[j2].name
                            == decls[j].name;
                    assert(j2 == j);
                }
            },
            PromptAnswer::Answered { default, reply } => {
                assert(pairs_get(cur, decls[j].name) == Some(reply));
            },
        }
    }
    assert forall|k: Seq<char>| pairs_has(cur, k) implies is_decl_name(decls, k) by {
        let j = choose|j: int|
            0 <= j < n && (#[trigger] hist[j]) is Answered && decls[j].name == k;
        assert(0 <= j < decls.len() && decls[j].name == k);
    }
}

/// Automatic mode is idempotent: against the same declarations, two runs in
/// which the evaluator judged applicability and computed defaults
/// identically (no side-effecting defaults) resolve identical mappings.
pub proof fn lemma_auto_idempotent(
    decls: Seq<DeclModel>,
    h1: Seq<PromptAnswer>,
    h2: Seq<PromptAnswer>,
    n: int,
)
    requires
        forall|j: int| 0 <= j < n ==> #[trigger] h1[j] == h2[j],
    ensures
        prompt_values(decls, h1, n) == prompt_values(decls, h2, n),
{
    crate::prompt_run::lemma_prompt_values_prefix(decls, h1, h2, n);
}

/// Given a declaration with a string default and a declared choice set, the
/// prompt-driven sources resolve it to the acquired reply: whenever that
/// reply is a member of the choice set — as the interactive choice prompt
/// guarantees, and as automatic mode does when the template's default is
/// itself one of the choices — the resolved value is a member of the choice
/// set. (The JSON source is deliberately different: a supplied string is
/// trusted without choice-membership enforcement.)
pub proof fn lemma_choice_membership(
    decls: Seq<DeclModel>,
    hist: Seq<PromptAnswer>,
    n: int,
    j: int,
    cs: Seq<Seq<char>>,
    rs: Seq<char>,
)
    requires
        distinct_names(decls),
        0 <= n <= decls.len(),
        n <= hist.len(),
        0 <= j < n,
        decls[j].choices == Some(cs),
        hist[j] matches PromptAnswer::Answered { default, reply } && default is Str && reply
            == ValueModel::Str(rs),
        cs.contains(rs),
    ensures
        pairs_get(prompt_values(decls, hist, n), decls[j].name) == Some(ValueModel::Str(rs)),
        cs.contains(rs),
{
    lemma_prompt_pairs(decls, hist, n);
}

/// Every entry of a JSON-input run's mapping is the document's value for
/// its declaration, converted; names present are exactly the declarations
/// judged applicable; nothing else gets in.
pub proof fn lemma_json_pairs(
    decls: Seq<DeclModel>,
    doc: Seq<(Seq<char>, crate::json::ShapeModel)>,
    applic_flags: Seq<bool>,
    n: int,
)
    requires
        distinct_names(decls),
        0 <= n <= decls.len(),
        n <= applic_flags.len(),
        json_state(decls, doc, applic_flags, n).err is None,
    ensures
        forall|j: int|
            #![trigger applic_flags[j]]
            0 <= j < n && applic_flags[j] ==> match doc_get(doc, decls[j].name) {
                Some(sh) => shape_value(sh) is Some && pairs_get(
                    json_state(decls, doc, applic_flags, n).pairs,
                    decls[j].name,
                ) == shape_value(sh),
                None => false,
            },
        forall|j: int|
            0 <= j < n ==> (pairs_has(json_state(decls, doc, applic_flags, n).pairs, decls[j].name)
                <==> applic_flags[j]),
        forall|k: Seq<char>|
            pairs_has(json_state(decls, doc, applic_flags, n).pairs, k) ==> exists|j: int|
                0 <= j < n && #[trigger] applic_flags[j] && decls[j].name == k,
    decreases n,
{
    if n > 0 {
        let st1 = json_state(decls, doc, applic_flags, n - 1);
        let st = json_state(decls, doc, applic_flags, n);
        if st1.err is Some {
            assert(st == st1);
            assert(false);
        }
        lemma_json_pairs(decls, doc, applic_flags, n - 1);
        let nm = decls[n - 1].name;
        if applic_flags[n - 1] {
            let v = match doc_get(doc, nm) {
                None => {
                    assert(st.err is Some);
                    ValueModel::Bool(false)
                },
                Some(sh) => match shape_value(sh) {
                    None => {
                        assert(st.err is Some);
                        ValueModel::Bool(false)
                    },
                    Some(v) => v,
                },
            };
            assert(st.pairs == st1.pairs.push((nm, v)));
            assert(st.pairs.drop_last() =~= st1.pairs);
            assert forall|j: int|
                #![trigger applic_flags[j]]
                0 <= j < n && applic_flags[j] implies match doc_get(doc, decls[j].name) {
                Some(sh2) => shape_value(sh2) is Some && pairs_get(st.pairs, decls[j].name)
                    == shape_value(sh2),
                None => false,
            } by {
                if j == n - 1 {
                    assert(pairs_get(st.pairs, nm) == Some(v));
                } else {
                    assert(decls[j].name != nm);
                    assert(pairs_get(st.pairs, decls[j].name) == pairs_get(
                        st1.pairs,
                        decls[j].name,
                    ));
                }
            }
            assert forall|j: int|
                0 <= j < n implies (pairs_has(st.pairs, decls[j].name) <==> applic_flags[j]) by {
                if j == n - 1 {
                    assert(pairs_get(st.pairs, nm) == Some(v));
                } else {
                    assert(decls[j].name != nm);
                    assert(pairs_get(st.pairs, decls[j].name) == pairs_get(
                        st1.pairs,
                        decls[j].name,
                    ));
                }
            }
            assert forall|k: Seq<char>| pairs_has(st.pairs, k) implies exists|j: int|
                0 <= j < n && #[trigger] applic_flags[j] && decls[j].name == k by {
                if k == nm {
                    assert(0 <= n - 1 < n && applic_flags[n - 1] && decls[n - 1].name == k);
                } else {
                    assert(pairs_get(st.pairs, k) == pairs_get(st1.pairs, k));
                    assert(pairs_has(st1.pairs, k));
                    let j2 = choose|j2: int|
                        0 <= j2 < n - 1 && #[trigger] applic_flags[j2] && decls[j2].name == k;
                    assert(0 <= j2 < n && applic_flags[j2] && decls[j2].name == k);
                }
            }
        } else {
            assert(st.pairs == st1.pairs);
            assert forall|j: int|
                0 <= j < n implies (pairs_has(st.pairs, decls[j].name) <==> applic_flags[j]) by {
                if j == n - 1 {
                    if pairs_has(st.pairs, nm) {
                        let j2 = choose|j2: int|
                            0 <= j2 < n - 1 && #[trigger] applic_flags[j2] && decls[j2].name == nm;
                        assert(j2 == n - 1);
                        assert(false);
                    }
                }
            }
        }
    }
}

/// For all declaration lists and the JSON source, the set of names present
/// in a successful run's mapping equals exactly the set of declarations
/// judged applicable: together with `lemma_prompt_domain` this is the
/// domain guarantee for every input source.
pub proof fn lemma_json_domain(
    decls: Seq<DeclModel>,
    doc: Seq<(Seq<char>, crate::json::ShapeModel)>,
    applic_flags: Seq<bool>,
    n: int,
)
    requires
        distinct_names(decls),
        0 <= n <= decls.len(),
        n <= applic_flags.len(),
        json_state(decls, doc, applic_flags, n).err is None,
    ensures
        forall|j: int|
            0 <= j < n ==> (pairs_has(json_state(decls, doc, applic_flags, n).pairs, decls[j].name)
                <==> applic_flags[j]),
        forall|k: Seq<char>|
            pairs_has(json_state(decls, doc, applic_flags, n).pairs, k) ==> is_decl_name(decls, k),
{
    lemma_json_pairs(decls, doc, applic_flags, n);
    let st = json_state(decls, doc, applic_flags, n);
    assert forall|k: Seq<char>| pairs_has(st.pairs, k) implies is_decl_name(decls, k) by {
        let j = choose|j: int| 0 <= j < n && #[trigger] applic_flags[j] && decls[j].name == k;
        assert(0 <= j < decls.len() && decls[j].name == k);
    }
}


/// Serialization commutes with lookup: the document serialized from a
/// mapping answers every key exactly as the mapping does, shape-converted.
pub proof fn lemma_doc_of_pairs_get(m: Seq<(Seq<char>, ValueModel)>, k: Seq<char>)
    ensures
        doc_get(doc_of_pairs(m), k) == match pairs_get(m, k) {
            Some(v) => Some(shape_of_value(v)),
            None => None::<crate::json::ShapeModel>,
        },
    decreases m.len(),
{
    if m.len() > 0 {
        assert(doc_of_pairs(m).last() == (m.last().0, shape_of_value(m.last().1)));
        assert(doc_of_pairs(m).drop_last() =~= doc_of_pairs(m.drop_last()));
        lemma_doc_of_pairs_get(m.drop_last(), k);
    } else {
        assert(doc_of_pairs(m).len() == 0);
    }
}

/// Every name a prompt-driven run resolves is the name of a declaration.
pub proof fn lemma_prompt_names(decls: Seq<DeclModel>, hist: Seq<PromptAnswer>, n: int)
    requires
        0 <= n <= decls.len(),
        n <= hist.len(),
    ensures
        forall|i: int|
            0 <= i < prompt_values(decls, hist, n).len() ==> is_decl_name(
                decls,
                (#[trigger] prompt_values(decls, hist, n)[i]).0,
            ),
    decreases n,
{
    if n > 0 {
        lemma_prompt_names(decls, hist, n - 1);
        let prev = prompt_values(decls, hist, n - 1);
        let cur = prompt_values(decls, hist, n);
        match hist[n - 1] {
            PromptAnswer::Skip => {},
            PromptAnswer::Answered { default, reply } => {
                assert forall|i: int|
                    0 <= i < cur.len() implies is_decl_name(decls, (#[trigger] cur[i]).0) by {
                    if i < prev.len() {
                        assert(cur[i] == prev[i]);
                    } else {
                        assert(cur[i].0 == decls[n - 1].name);
                        assert(0 <= n - 1 < decls.len() && decls[n - 1].name == cur[i].0);
                    }
                }
            },
        }
    }
}

/// A document whose every key names a declaration draws no unknown-variable
/// warning.
pub proof fn lemma_unknown_empty(
    decls: Seq<DeclModel>,
    doc: Seq<(Seq<char>, crate::json::ShapeModel)>,
)
    requires
        forall|i: int| 0 <= i < doc.len() ==> is_decl_name(decls, (#[trigger] doc[i]).0),
    ensures
        unknown_warnings(decls, doc) == Seq::<WarningModel>::empty(),
    decreases doc.len(),
{
    if doc.len() > 0 {
        assert(is_decl_name(decls, doc.last().0));
        assert forall|i: int|
            0 <= i < doc.drop_last().len() implies is_decl_name(
            decls,
            (#[trigger] doc.drop_last()[i]).0,
        ) by {
            assert(doc.drop_last()[i] == doc[i]);
        }
        lemma_unknown_empty(decls, doc.drop_last());
    }
}

proof fn round_trip_aux(
    decls: Seq<DeclModel>,
    hist: Seq<PromptAnswer>,
    applic_flags: Seq<bool>,
    n: int,
)
    requires
        distinct_names(decls),
        hist.len() == decls.len(),
        applic_flags.len() == decls.len(),
        forall|j: int| 0 <= j < decls.len() ==> (applic_flags[j] == (#[trigger] hist[j]) is Answered),
        unknown_warnings(
            decls,
            doc_of_pairs(prompt_values(decls, hist, decls.len() as int)),
        ) == Seq::<WarningModel>::empty(),
        0 <= n <= decls.len(),
    ensures
        json_state(
            decls,
            doc_of_pairs(prompt_values(decls, hist, decls.len() as int)),
            applic_flags,
            n,
        ) == (JsonStateM {
            pairs: prompt_values(decls, hist, n),
            warns: Seq::<WarningModel>::empty(),
            err: None,
        }),
    decreases n,
{
    let len = decls.len() as int;
    let p = prompt_values(decls, hist, len);
    let doc = doc_of_pairs(p);
    if n > 0 {
        round_trip_aux(decls, hist, applic_flags, n - 1);
        let nm = decls[n - 1].name;
        lemma_prompt_domain(decls, hist, len);
        lemma_doc_of_pairs_get(p, nm);
        match hist[n - 1] {
            PromptAnswer::Skip => {
                assert(!pairs_has(p, nm));
                assert(!doc_has(doc, nm));
                assert(prompt_values(decls, hist, n) == prompt_values(decls, hist, n - 1));
            },
            PromptAnswer::Answered { default, reply } => {
                lemma_prompt_pairs(decls, hist, len);
                assert(pairs_get(p, nm) == Some(reply));
                assert(doc_get(doc, nm) == Some(shape_of_value(reply)));
                assert(shape_value(shape_of_value(reply)) == Some(reply));
                assert(prompt_values(decls, hist, n) == prompt_values(decls, hist, n - 1).push(
                    (nm, reply),
                ));
            },
        }
    }
}

/// JSON round-trip: a mapping resolved by a prompt-driven run, serialized
/// back to the JSON document shape and re-fed through the JSON input
/// adapter under the same applicability answers, resolves the identical
/// mapping — successfully, and with no warnings.
pub proof fn lemma_json_round_trip(
    decls: Seq<DeclModel>,
    hist: Seq<PromptAnswer>,
    applic_flags: Seq<bool>,
)
    requires
        distinct_names(decls),
        hist.len() == decls.len(),
        applic_flags.len() == decls.len(),
        forall|j: int| 0 <= j < decls.len() ==> (applic_flags[j] == (#[trigger] hist[j]) is Answered),
    ensures
        json_state(
            decls,
            doc_of_pairs(prompt_values(decls, hist, decls.len() as int)),
            applic_flags,
            decls.len() as int,
        ) == (JsonStateM {
            pairs: prompt_values(decls, hist, decls.len() as int),
            warns: Seq::<WarningModel>::empty(),
            err: None,
        }),
{
    let len = decls.len() as int;
    let p = prompt_values(decls, hist, len);
    let doc = doc_of_pairs(p);
    lemma_prompt_names(decls, hist, len);
    assert forall|i: int| 0 <= i < doc.len() implies is_decl_name(decls, (#[trigger] doc[i]).0) by {
        assert(doc[i] == (p[i].0, shape_of_value(p[i].1)));
    }
    lemma_unknown_empty(decls, doc);
    round_trip_aux(decls, hist, applic_flags, len);
}

} // verus!

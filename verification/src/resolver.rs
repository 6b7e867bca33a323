use vstd::prelude::*;
use crate::values::{Value, ResolvedValues};
use crate::decls::{VarDecl, decl_models};
use crate::json::JsonDoc;
use crate::json_run::{JsonRun, JsonStateM, json_state};
use crate::prompt_run::{PromptRun, PromptAnswer, prompt_values};
use crate::parse::{parse_input, parsed_doc, ParseOutcomeModel};
use crate::errors::{ResolveError, ErrorModel, Warning};

verus! {

/// kickstart's template handle: opaque here. Only the two evaluator entry
/// points below are relied on; loading, rendering and hook discovery stay
/// with the caller.
#[verifier::external_type_specification]
#[verifier::external_body]
pub struct ExTemplate(kickstart::Template);

/// Relies on kickstart::Template::should_ask_variable: evaluates the named
/// declaration's applicability condition against the values resolved so
/// far. The template is opaque to this crate, so nothing is assumed of the
/// applicability answer; a failure comes back as the evaluator's message.
#[verifier::external_body]
fn eval_should_ask(t: &kickstart::Template, name: &String, vals: &ResolvedValues) -> (r: Result<
    bool,
    String,
>) {
    let mut m = std::collections::HashMap::new();
    for (k, v) in vals.entries.iter() {
        m.insert(k.clone(), match v {
            Value::Str(s) => kickstart::Value::String(s.clone()),
            Value::Bool(b) => kickstart::Value::Boolean(*b),
            Value::Int(i) => kickstart::Value::Integer(*i),
        });
    }
    t.should_ask_variable(name, &m).map_err(|e| e.to_string())
}

/// Relies on kickstart::Template::get_default_for: computes the named
/// declaration's default against the values resolved so far; the result
/// also carries the variable's runtime type. Nothing is assumed of the
/// value; a failure comes back as the evaluator's message.
#[verifier::external_body]
fn eval_default(t: &kickstart::Template, name: &String, vals: &ResolvedValues) -> (r: Result<
    Value,
    String,
>) {
    let mut m = std::collections::HashMap::new();
    for (k, v) in vals.entries.iter() {
        m.insert(k.clone(), match v {
            Value::Str(s) => kickstart::Value::String(s.clone()),
            Value::Bool(b) => kickstart::Value::Boolean(*b),
            Value::Int(i) => kickstart::Value::Integer(*i),
        });
    }
    match t.get_default_for(name, &m) {
        Ok(kickstart::Value::String(s)) => Ok(Value::Str(s)),
        Ok(kickstart::Value::Boolean(b)) => Ok(Value::Bool(b)),
        Ok(kickstart::Value::Integer(i)) => Ok(Value::Int(i)),
        Err(e) => Err(e.to_string()),
    }
}

/// A finished automatic-mode run: the resolved mapping, and the recorded
/// per-declaration answers it replays.
pub struct AutoOutcome {
    pub values: ResolvedValues,
    pub hist: Ghost<Seq<PromptAnswer>>,
}

/// Every answer of an automatic run uses the computed default unchanged.
pub open spec fn auto_answers(hist: Seq<PromptAnswer>) -> bool {
    forall|j: int| 0 <= j < hist.len() ==> match #[trigger] hist[j] {
        PromptAnswer::Skip => true,
        PromptAnswer::Answered { default, reply } => reply == default,
    }
}

/// Resolves every variable in automatic mode: declarations are walked in
/// order; the evaluator is consulted for each one's applicability and — for
/// the applicable ones — its default, which is used unchanged, with no
/// prompt. The evaluator still runs per declaration, so applicability and
/// defaults that depend on earlier defaulted values stay consistent. An
/// evaluator failure aborts the run at once.
pub fn resolve_auto(t: &kickstart::Template, decls: Vec<VarDecl>) -> (r: Result<
    AutoOutcome,
    ResolveError,
>)
    ensures
        decls@.len() == 0 ==> r is Ok,
        match r {
            Ok(o) => {
                &&& o.hist@.len() == decls@.len()
                &&& auto_answers(o.hist@)
                &&& o.values@ == prompt_values(decl_models(decls@), o.hist@, decls@.len() as int)
            },
            Err(e) => e@ matches ErrorModel::EvalFailed { .. },
        },
{
    let mut run = PromptRun::new(decls);
    let n = run.decls.len();
    let mut i: usize = 0;
    while i < n
        invariant
            run.wf(),
            run.idx == i,
            i <= n,
            n == run.decls.len(),
            run.decls == decls,
            auto_answers(run.hist@),
        decreases n - i,
    {
        let name = run.decls[i].name.clone();
        let applicable = match eval_should_ask(t, &name, &run.values) {
            Ok(b) => b,
            Err(message) => {
                return Err(ResolveError::EvalFailed { name, message });
            },
        };
        if applicable {
            let default = match eval_default(t, &name, &run.values) {
                Ok(d) => d,
                Err(message) => {
                    return Err(ResolveError::EvalFailed { name, message });
                },
            };
            let reply = default.clone();
            run.accept(&default, reply);
        } else {
            run.skip();
        }
        i = i + 1;
    }
    Ok(AutoOutcome { values: run.values, hist: Ghost(run.hist@) })
}

/// A finished JSON-input run: the resolved mapping, the warnings collected
/// along the way, and the recorded applicability answers it replays.
pub struct JsonOutcome {
    pub values: ResolvedValues,
    pub warnings: Vec<Warning>,
    pub applic_flags: Ghost<Seq<bool>>,
}

/// Resolves every variable from a parsed JSON document: declarations are
/// walked in the same fixed order as the prompt-driven driver, consulting
/// the evaluator per declaration; values come from the document alone, per
/// the JSON input adapter's rules, and no prompt is issued. An evaluator
/// failure or a fatal adapter error aborts the run at once.
pub fn resolve_json(t: &kickstart::Template, decls: Vec<VarDecl>, doc: JsonDoc) -> (r: Result<
    JsonOutcome,
    ResolveError,
>)
    ensures
        decls@.len() == 0 ==> r is Ok,
        match r {
            Ok(o) => {
                &&& o.applic_flags@.len() == decls@.len()
                &&& json_state(decl_models(decls@), doc@, o.applic_flags@, decls@.len() as int)
                    == (JsonStateM {
                    pairs: o.values@,
                    warns: o.warnings@.map_values(|w: Warning| w@),
                    err: None,
                })
            },
            Err(e) => {
                ||| e@ matches ErrorModel::EvalFailed { .. }
                ||| exists|v: Seq<bool>, i: int|
                    0 <= i < decls@.len() && v.len() == i + 1
                        && (#[trigger] json_state(decl_models(decls@), doc@, v, i + 1)).err
                        == Some(e@)
            },
        },
{
    let mut run = JsonRun::new(decls, doc);
    let n = run.decls.len();
    let mut i: usize = 0;
    while i < n
        invariant
            run.wf(),
            run.idx == i,
            i <= n,
            n == run.decls.len(),
            run.decls == decls,
            run.doc == doc,
        decreases n - i,
    {
        let name = run.decls[i].name.clone();
        let applicable = match eval_should_ask(t, &name, &run.values) {
            Ok(b) => b,
            Err(message) => {
                return Err(ResolveError::EvalFailed { name, message });
            },
        };
        match run.step(applicable) {
            Ok(()) => {},
            Err(e) => {
                proof {
                    let ghost dm = decl_models(decls@);
                    let ghost w = run.applic_flags@.push(applicable);
                    crate::json_run::lemma_json_state_prefix(
                        dm,
                        doc@,
                        w,
                        run.applic_flags@,
                        i as int,
                    );
                    assert(json_state(dm, doc@, w, i as int + 1).err == Some(e@));
                }
                return Err(e);
            },
        }
        i = i + 1;
    }
    Ok(JsonOutcome {
        values: run.values,
        warnings: run.warnings,
        applic_flags: Ghost(run.applic_flags@),
    })
}

/// Resolves every variable from the text of a JSON input file: the text
/// must parse as a single top-level object, else the run aborts with the
/// matching input-shape error before the evaluator runs; the document is
/// then fed through the JSON input adapter.
pub fn resolve_json_text(t: &kickstart::Template, decls: Vec<VarDecl>, text: &str) -> (r: Result<
    JsonOutcome,
    ResolveError,
>)
    ensures
        parsed_doc(text@) matches ParseOutcomeModel::Object(_) && decls@.len() == 0 ==> r
            is Ok,
        parsed_doc(text@) matches ParseOutcomeModel::Invalid(m) ==> r matches Err(e) && e@
            == ErrorModel::InvalidJson(m),
        parsed_doc(text@) matches ParseOutcomeModel::NotObject ==> r matches Err(e) && e@
            == ErrorModel::NotAnObject,
        parsed_doc(text@) matches ParseOutcomeModel::Object(dv) ==> match r {
            Ok(o) => {
                &&& o.applic_flags@.len() == decls@.len()
                &&& json_state(decl_models(decls@), dv, o.applic_flags@, decls@.len() as int)
                    == (JsonStateM {
                    pairs: o.values@,
                    warns: o.warnings@.map_values(|w: Warning| w@),
                    err: None,
                })
            },
            Err(e) => {
                ||| e@ matches ErrorModel::EvalFailed { .. }
                ||| exists|v: Seq<bool>, i: int|
                    0 <= i < decls@.len() && v.len() == i + 1
                        && (#[trigger] json_state(decl_models(decls@), dv, v, i + 1)).err
                        == Some(e@)
            },
        },
{
    match parse_input(text) {
        Err(e) => Err(e),
        Ok(doc) => resolve_json(t, decls, doc),
    }
}

} // verus!

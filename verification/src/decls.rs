use vstd::prelude::*;
use crate::values::{Value, ValueModel};

verus! {

/// One template-authored variable declaration: a unique name, the prompt text
/// shown to the user, an optional set of allowed string choices and an
/// optional validation rule for free-form string variables. The applicability
/// condition and the default expression are opaque to this crate: the
/// external evaluator is consulted for them, per declaration, against the
/// values resolved so far.
#[derive(Debug, Clone, PartialEq, Eq)]
pub struct VarDecl {
    pub name: String,
    pub prompt: String,
    pub choices: Option<Vec<String>>,
    pub validation: Option<String>,
}

/// Mathematical model of a [`VarDecl`].
pub ghost struct DeclModel {
    pub name: Seq<char>,
    pub prompt: Seq<char>,
    pub choices: Option<Seq<Seq<char>>>,
    pub validation: Option<Seq<char>>,
}

impl View for VarDecl {
    type V = DeclModel;

    open spec fn view(&self) -> DeclModel {
        DeclModel {
            name: self.name@,
            prompt: self.prompt@,
            choices: match self.choices {
                Some(cs) => Some(cs@.map_values(|c: String| c@)),
                None => None,
            },
            validation: match self.validation {
                Some(v) => Some(v@),
                None => None,
            },
        }
    }
}

/// The models of a sequence of declarations.
pub open spec fn decl_models(ds: Seq<VarDecl>) -> Seq<DeclModel> {
    ds.map_values(|d: VarDecl| d@)
}

/// Declaration names are pairwise distinct. Template validation (outside this
/// crate) guarantees this for every well-formed template.
pub open spec fn distinct_names(decls: Seq<DeclModel>) -> bool {
    forall|i: int, j: int|
        0 <= i < j < decls.len() ==> decls[i].name != decls[j].name
}

/// `k` is the name of one of the declarations.
pub open spec fn is_decl_name(decls: Seq<DeclModel>, k: Seq<char>) -> bool {
    exists|i: int| 0 <= i < decls.len() && decls[i].name == k
}

/// Whether `name` names one of the given declarations.
pub fn is_declared(decls: &Vec<VarDecl>, name: &String) -> (r: bool)
    ensures
        r == is_decl_name(decl_models(decls@), name@),
{
    let n = decls.len();
    let mut i: usize = 0;
    while i < n
        invariant
            i <= n,
            n == decls.len(),
            forall|j: int| 0 <= j < i ==> decl_models(decls@)[j].name != name@,
        decreases n - i,
    {
        proof {
            assert(decl_models(decls@)[i as int] == decls@[i as int]@);
        }
        if decls[i].name.eq(name) {
            return true;
        }
        i = i + 1;
    }
    false
}

/// The acquisition strategy for one applicable declaration, determined by the
/// runtime type of its computed default: a string default with a declared
/// choice set uses a choice prompt, a boolean default a boolean prompt, a
/// string default without choices a free-text prompt subject to the
/// declaration's validation rule, and an integer default an integer prompt.
/// Automatic mode short-circuits each of these with the default itself.
#[derive(Debug, Clone, PartialEq, Eq)]
pub enum PromptPlan {
    Choice { prompt: String, default: String, choices: Vec<String> },
    Toggle { prompt: String, default: bool },
    FreeText { prompt: String, default: String, validation: Option<String> },
    Number { prompt: String, default: i64 },
}

/// Mathematical model of a [`PromptPlan`].
pub ghost enum PlanModel {
    Choice { prompt: Seq<char>, default: Seq<char>, choices: Seq<Seq<char>> },
    Toggle { prompt: Seq<char>, default: bool },
    FreeText { prompt: Seq<char>, default: Seq<char>, validation: Option<Seq<char>> },
    Number { prompt: Seq<char>, default: int },
}

impl View for PromptPlan {
    type V = PlanModel;

    open spec fn view(&self) -> PlanModel {
        match self {
            PromptPlan::Choice { prompt, default, choices } => PlanModel::Choice {
                prompt: prompt@,
                default: default@,
                choices: choices@.map_values(|c: String| c@),
            },
            PromptPlan::Toggle { prompt, default } => PlanModel::Toggle {
                prompt: prompt@,
                default: *default,
            },
            PromptPlan::FreeText { prompt, default, validation } => PlanModel::FreeText {
                prompt: prompt@,
                default: default@,
                validation: match validation {
                    Some(v) => Some(v@),
                    None => None,
                },
            },
            PromptPlan::Number { prompt, default } => PlanModel::Number {
                prompt: prompt@,
                default: *default as int,
            },
        }
    }
}

/// The strategy implied by a declaration and its computed default.
pub open spec fn plan_spec(d: DeclModel, default: ValueModel) -> PlanModel {
    match default {
        ValueModel::Str(s) => match d.choices {
            Some(cs) => PlanModel::Choice { prompt: d.prompt, default: s, choices: cs },
            None => PlanModel::FreeText { prompt: d.prompt, default: s, validation: d.validation },
        },
        ValueModel::Bool(b) => PlanModel::Toggle { prompt: d.prompt, default: b },
        ValueModel::Int(i) => PlanModel::Number { prompt: d.prompt, default: i },
    }
}

/// Determines how an applicable declaration's value is acquired, from the
/// runtime type of the default the evaluator computed for it.
pub fn plan_for(d: &VarDecl, default: &Value) -> (p: PromptPlan)
    ensures
        p@ == plan_spec(d@, default@),
{
    match default {
        Value::Str(s) => match &d.choices {
            Some(cs) => PromptPlan::Choice {
                prompt: d.prompt.clone(),
                default: s.clone(),
                choices: cs.clone(),
            },
            None => PromptPlan::FreeText {
                prompt: d.prompt.clone(),
                default: s.clone(),
                validation: d.validation.clone(),
            },
        },
        Value::Bool(b) => PromptPlan::Toggle { prompt: d.prompt.clone(), default: *b },
        Value::Int(i) => PromptPlan::Number { prompt: d.prompt.clone(), default: *i },
    }
}

} // verus!

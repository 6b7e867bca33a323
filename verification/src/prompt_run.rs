use vstd::prelude::*;
use crate::values::{Value, ValueModel, ResolvedValues, same_kind};
use crate::decls::{VarDecl, DeclModel, decl_models};

verus! {

/// What one declaration contributed to an interactive or automatic run:
/// either the evaluator judged it inapplicable and it was skipped outright,
/// or it was answered — `default` is the value the evaluator computed for it
/// and `reply` the value actually acquired (the prompt's answer, or the
/// default itself in automatic mode).
pub ghost enum PromptAnswer {
    Skip,
    Answered { default: ValueModel, reply: ValueModel },
}

/// The resolved pairs after the first `i` declarations of a prompt-driven
/// run, given the per-declaration answers. Each step sees only the results
/// of earlier steps: this recursion is the ordering contract of the driver.
pub open spec fn prompt_values(
    decls: Seq<DeclModel>,
    hist: Seq<PromptAnswer>,
    i: int,
) -> Seq<(Seq<char>, ValueModel)>
    decreases i,
{
    if i <= 0 {
        Seq::empty()
    } else {
        let prev = prompt_values(decls, hist, i - 1);
        match hist[i - 1] {
            PromptAnswer::Skip => prev,
            PromptAnswer::Answered { default, reply } => prev.push((decls[i - 1].name, reply)),
        }
    }
}

/// `prompt_values` reads only the first `i` answers.
pub proof fn lemma_prompt_values_prefix(
    decls: Seq<DeclModel>,
    h1: Seq<PromptAnswer>,
    h2: Seq<PromptAnswer>,
    i: int,
)
    requires
        forall|j: int| 0 <= j < i ==> #[trigger] h1[j] == h2[j],
    ensures
        prompt_values(decls, h1, i) == prompt_values(decls, h2, i),
    decreases i,
{
    if i > 0 {
        lemma_prompt_values_prefix(decls, h1, h2, i - 1);
    }
}

/// The resolution driver for the interactive and automatic sources: walks
/// the declarations in order; for each one the caller reports either that
/// the evaluator judged it inapplicable (`skip`) or the computed default and
/// the acquired value (`accept`). The mapping grows only through these two
/// moves, so it always equals the replay of the recorded answers.
pub struct PromptRun {
    pub decls: Vec<VarDecl>,
    pub idx: usize,
    pub values: ResolvedValues,
    pub hist: Ghost<Seq<PromptAnswer>>,
}

impl PromptRun {
    pub open spec fn models(&self) -> Seq<DeclModel> {
        decl_models(self.decls@)
    }

    /// The machine is a faithful replay of its recorded answers.
    pub open spec fn wf(&self) -> bool {
        &&& self.idx <= self.decls.len()
        &&& self.hist@.len() == self.idx as int
        &&& self.values@ == prompt_values(self.models(), self.hist@, self.idx as int)
    }

    pub fn new(decls: Vec<VarDecl>) -> (r: PromptRun)
        ensures
            r.wf(),
            r.decls == decls,
            r.idx == 0,
            r.hist@ == Seq::<PromptAnswer>::empty(),
            r.values@ == Seq::<(Seq<char>, ValueModel)>::empty(),
    {
        PromptRun { decls, idx: 0, values: ResolvedValues::new(), hist: Ghost(Seq::empty()) }
    }

    /// Whether every declaration has been processed.
    pub fn done(&self) -> (r: bool)
        ensures
            r == (self.idx == self.decls.len()),
    {
        self.idx == self.decls.len()
    }

    /// The evaluator judged the current declaration inapplicable: it is
    /// skipped entirely and no entry is written for it.
    pub fn skip(&mut self)
        requires
            old(self).wf(),
            old(self).idx < old(self).decls.len(),
        ensures
            final(self).wf(),
            final(self).decls == old(self).decls,
            final(self).values == old(self).values,
            final(self).idx == old(self).idx + 1,
            final(self).hist@ == old(self).hist@.push(PromptAnswer::Skip),
    {
        proof {
            lemma_prompt_values_prefix(
                self.models(),
                self.hist@.push(PromptAnswer::Skip),
                self.hist@,
                self.idx as int,
            );
        }
        self.hist = Ghost(self.hist@.push(PromptAnswer::Skip));
        self.idx = self.idx + 1;
    }

    /// The current declaration is applicable; `default` is the value the
    /// evaluator computed for it and `reply` the value acquired for it — the
    /// prompt's answer, or the default unchanged in automatic mode. The
    /// reply carries the runtime type the default implies.
    pub fn accept(&mut self, default: &Value, reply: Value)
        requires
            old(self).wf(),
            old(self).idx < old(self).decls.len(),
            same_kind(reply@, default@),
        ensures
            final(self).wf(),
            final(self).decls == old(self).decls,
            final(self).idx == old(self).idx + 1,
            final(self).hist@ == old(self).hist@.push(
                PromptAnswer::Answered { default: default@, reply: reply@ },
            ),
            final(self).values@ == old(self).values@.push(
                (old(self).decls@[old(self).idx as int].name@, reply@),
            ),
    {
        let ghost a = PromptAnswer::Answered { default: default@, reply: reply@ };
        proof {
            lemma_prompt_values_prefix(self.models(), self.hist@.push(a), self.hist@, self.idx as int);
            assert(self.models()[self.idx as int] == self.decls@[self.idx as int]@);
        }
        let name = self.decls[self.idx].name.clone();
        self.values.insert(name, reply);
        self.hist = Ghost(self.hist@.push(a));
        self.idx = self.idx + 1;
    }
}

} // verus!

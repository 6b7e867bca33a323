use vstd::prelude::*;
use crate::values::{Value, ValueModel, ResolvedValues};
use crate::decls::{VarDecl, DeclModel, decl_models};
use crate::json::{
    JsonDoc, JsonShape, ShapeModel, doc_get, doc_has, shape_value, shape_flaw, unknown_warnings,
    collect_unknown_warnings,
};
use crate::errors::{ResolveError, ErrorModel, Warning, WarningModel, BadValueKind};

verus! {

/// The complete observable state of a JSON-input run after some prefix of
/// the declarations: the pairs resolved so far, the warnings collected so
/// far, and the fatal error, if one was hit.
pub ghost struct JsonStateM {
    pub pairs: Seq<(Seq<char>, ValueModel)>,
    pub warns: Seq<WarningModel>,
    pub err: Option<ErrorModel>,
}

/// Before any declaration is processed: no pairs, and one warning per
/// document key that names no declaration.
pub open spec fn json_init(
    decls: Seq<DeclModel>,
    doc: Seq<(Seq<char>, ShapeModel)>,
) -> JsonStateM {
    JsonStateM { pairs: Seq::empty(), warns: unknown_warnings(decls, doc), err: None }
}

/// One declaration processed against the document, given the evaluator's
/// applicability answer: an inapplicable declaration is skipped (with a
/// warning if the document supplies a value for it anyway); an applicable
/// one must be supplied with a value of a convertible shape, else the run
/// fails fatally.
pub open spec fn json_step_m(
    st: JsonStateM,
    d: DeclModel,
    doc: Seq<(Seq<char>, ShapeModel)>,
    applicable: bool,
) -> JsonStateM {
    if st.err is Some {
        st
    } else if !applicable {
        if doc_has(doc, d.name) {
            JsonStateM {
                pairs: st.pairs,
                warns: st.warns.push(WarningModel::Inapplicable(d.name)),
                err: None,
            }
        } else {
            st
        }
    } else {
        match doc_get(doc, d.name) {
            Some(sh) => match shape_value(sh) {
                Some(v) => JsonStateM { pairs: st.pairs.push((d.name, v)), warns: st.warns, err: None },
                None => JsonStateM {
                    pairs: st.pairs,
                    warns: st.warns,
                    err: Some(ErrorModel::InvalidValue { name: d.name, kind: shape_flaw(sh) }),
                },
            },
            None => JsonStateM {
                pairs: st.pairs,
                warns: st.warns,
                err: Some(ErrorModel::MissingVariable(d.name)),
            },
        }
    }
}

/// The state after the first `i` declarations, given the evaluator's
/// applicability answers.
pub open spec fn json_state(
    decls: Seq<DeclModel>,
    doc: Seq<(Seq<char>, ShapeModel)>,
    applic_flags: Seq<bool>,
    i: int,
) -> JsonStateM
    decreases i,
{
    if i <= 0 {
        json_init(decls, doc)
    } else {
        json_step_m(json_state(decls, doc, applic_flags, i - 1), decls[i - 1], doc, applic_flags[i - 1])
    }
}

/// `json_state` reads only the first `i` applicability answers.
pub proof fn lemma_json_state_prefix(
    decls: Seq<DeclModel>,
    doc: Seq<(Seq<char>, ShapeModel)>,
    v1: Seq<bool>,
    v2: Seq<bool>,
    i: int,
)
    requires
        forall|j: int| 0 <= j < i ==> #[trigger] v1[j] == v2[j],
    ensures
        json_state(decls, doc, v1, i) == json_state(decls, doc, v2, i),
    decreases i,
{
    if i > 0 {
        lemma_json_state_prefix(decls, doc, v1, v2, i - 1);
    }
}

/// The JSON input adapter: walks the declarations in the same fixed order as
/// the prompt-driven driver, but reads values from the supplied document
/// instead of prompting. The caller reports, per declaration, the
/// evaluator's applicability answer.
pub struct JsonRun {
    pub decls: Vec<VarDecl>,
    pub doc: JsonDoc,
    pub idx: usize,
    pub values: ResolvedValues,
    pub warnings: Vec<Warning>,
    pub applic_flags: Ghost<Seq<bool>>,
}

impl JsonRun {
    pub open spec fn models(&self) -> Seq<DeclModel> {
        decl_models(self.decls@)
    }

    /// The machine's observable state; a live machine has hit no error.
    pub open spec fn state(&self) -> JsonStateM {
        JsonStateM {
            pairs: self.values@,
            warns: self.warnings@.map_values(|w: Warning| w@),
            err: None,
        }
    }

    /// The machine is a faithful replay of its recorded applicability answers.
    pub open spec fn wf(&self) -> bool {
        &&& self.idx <= self.decls.len()
        &&& self.applic_flags@.len() == self.idx as int
        &&& json_state(self.models(), self.doc@, self.applic_flags@, self.idx as int) == self.state()
    }

    /// Starts a run; unknown document keys are warned about up front.
    pub fn new(decls: Vec<VarDecl>, doc: JsonDoc) -> (r: JsonRun)
        ensures
            r.wf(),
            r.decls == decls,
            r.doc == doc,
            r.idx == 0,
            r.applic_flags@ == Seq::<bool>::empty(),
            r.values@ == Seq::<(Seq<char>, ValueModel)>::empty(),
            r.warnings@.map_values(|w: Warning| w@) == unknown_warnings(
                decl_models(decls@),
                doc@,
            ),
    {
        let warnings = collect_unknown_warnings(&decls, &doc);
        JsonRun {
            decls,
            doc,
            idx: 0,
            values: ResolvedValues::new(),
            warnings,
            applic_flags: Ghost(Seq::empty()),
        }
    }

    /// Whether every declaration has been processed.
    pub fn done(&self) -> (r: bool)
        ensures
            r == (self.idx == self.decls.len()),
    {
        self.idx == self.decls.len()
    }

    /// Processes the current declaration, given the evaluator's answer on
    /// its applicability. On a fatal error the machine is left unchanged and
    /// the run is over for its caller.
    pub fn step(&mut self, applicable: bool) -> (r: Result<(), ResolveError>)
        requires
            old(self).wf(),
            old(self).idx < old(self).decls.len(),
        ensures
            final(self).decls == old(self).decls,
            final(self).doc == old(self).doc,
            match r {
                Ok(()) => {
                    &&& final(self).wf()
                    &&& final(self).idx == old(self).idx + 1
                    &&& final(self).applic_flags@ == old(self).applic_flags@.push(applicable)
                    &&& final(self).state() == json_step_m(
                        old(self).state(),
                        old(self).models()[old(self).idx as int],
                        old(self).doc@,
                        applicable,
                    )
                },
                Err(e) => {
                    &&& *final(self) == *old(self)
                    &&& json_step_m(
                        old(self).state(),
                        old(self).models()[old(self).idx as int],
                        old(self).doc@,
                        applicable,
                    ).err == Some(e@)
                },
            },
    {
        proof {
            assert(self.models()[self.idx as int] == self.decls@[self.idx as int]@);
        }
        let ghost d_i = self.models()[self.idx as int];
        let name = self.decls[self.idx].name.clone();
        if !applicable {
            let ghost old_warns = self.warnings@.map_values(|w: Warning| w@);
            if self.doc.has(&name) {
                self.warnings.push(Warning::InapplicableSupplied(name));
                proof {
                    assert(self.warnings@.map_values(|w: Warning| w@)
                        =~= old_warns.push(WarningModel::Inapplicable(d_i.name)));
                }
            }
            proof {
                lemma_json_state_prefix(
                    self.models(),
                    self.doc@,
                    self.applic_flags@.push(false),
                    self.applic_flags@,
                    self.idx as int,
                );
            }
            self.applic_flags = Ghost(self.applic_flags@.push(false));
            self.idx = self.idx + 1;
            Ok(())
        } else {
            let converted: Result<Value, ResolveError> = match self.doc.get_shape(&name) {
                None => Err(ResolveError::MissingVariable(name)),
                Some(sh) => match sh {
                    JsonShape::Str(s) => Ok(Value::Str(s.clone())),
                    JsonShape::Bool(b) => Ok(Value::Bool(*b)),
                    JsonShape::Int(x) => Ok(Value::Int(*x)),
                    JsonShape::FracNumber => Err(ResolveError::InvalidValue {
                        name,
                        kind: BadValueKind::FracNumber,
                    }),
                    JsonShape::Null => Err(ResolveError::InvalidValue {
                        name,
                        kind: BadValueKind::Null,
                    }),
                    JsonShape::Arr => Err(ResolveError::InvalidValue {
                        name,
                        kind: BadValueKind::Nested,
                    }),
                    JsonShape::Obj => Err(ResolveError::InvalidValue {
                        name,
                        kind: BadValueKind::Nested,
                    }),
                },
            };
            match converted {
                Ok(v) => {
                    let name2 = self.decls[self.idx].name.clone();
                    proof {
                        assert(name2@ == d_i.name);
                    }
                    self.values.insert(name2, v);
                    proof {
                        lemma_json_state_prefix(
                            self.models(),
                            self.doc@,
                            self.applic_flags@.push(true),
                            self.applic_flags@,
                            self.idx as int,
                        );
                    }
                    self.applic_flags = Ghost(self.applic_flags@.push(true));
                    self.idx = self.idx + 1;
                    Ok(())
                },
                Err(e) => Err(e),
            }
        }
    }
}

} // verus!

use vstd::prelude::*;
use crate::values::{Value, ValueModel, ResolvedValues};
use crate::decls::{VarDecl, DeclModel, decl_models, is_decl_name, is_declared};
use crate::errors::{BadValueKind, Warning, WarningModel};

verus! {

/// The shape of one top-level value of the input JSON document. Strings,
/// booleans and integer-shaped numbers carry their content; every other
/// shape is representable only as the fact of its rejection.
#[derive(Debug, Clone, PartialEq, Eq)]
pub enum JsonShape {
    Str(String),
    Bool(bool),
    Int(i64),
    /// A number that is not an integer.
    FracNumber,
    Null,
    /// A nested array.
    Arr,
    /// A nested object.
    Obj,
}

/// Mathematical model of a [`JsonShape`].
pub ghost enum ShapeModel {
    Str(Seq<char>),
    Bool(bool),
    Int(int),
    FracNumber,
    Null,
    Arr,
    Obj,
}

impl View for JsonShape {
    type V = ShapeModel;

    open spec fn view(&self) -> ShapeModel {
        match self {
            JsonShape::Str(s) => ShapeModel::Str(s@),
            JsonShape::Bool(b) => ShapeModel::Bool(*b),
            JsonShape::Int(i) => ShapeModel::Int(*i as int),
            JsonShape::FracNumber => ShapeModel::FracNumber,
            JsonShape::Null => ShapeModel::Null,
            JsonShape::Arr => ShapeModel::Arr,
            JsonShape::Obj => ShapeModel::Obj,
        }
    }
}

/// A top-level JSON object, reduced to what the pipeline reads of it: its
/// keys, in document order, each with the shape of its value.
#[derive(Debug, Clone, PartialEq, Eq)]
pub struct JsonDoc {
    pub entries: Vec<(String, JsonShape)>,
}

impl View for JsonDoc {
    type V = Seq<(Seq<char>, ShapeModel)>;

    open spec fn view(&self) -> Seq<(Seq<char>, ShapeModel)> {
        self.entries@.map_values(|e: (String, JsonShape)| (e.0@, e.1@))
    }
}

/// Looks a key up in a document; the latest entry for a key wins (a parsed
/// JSON object has distinct keys, so at most one entry matches anyway).
pub open spec fn doc_get(doc: Seq<(Seq<char>, ShapeModel)>, k: Seq<char>) -> Option<ShapeModel>
    decreases doc.len(),
{
    if doc.len() == 0 {
        None
    } else if doc.last().0 == k {
        Some(doc.last().1)
    } else {
        doc_get(doc.drop_last(), k)
    }
}

pub open spec fn doc_has(doc: Seq<(Seq<char>, ShapeModel)>, k: Seq<char>) -> bool {
    doc_get(doc, k) is Some
}

/// The typed value a shape converts to, if it converts at all: JSON strings,
/// booleans and integer-shaped numbers match the three value types; nothing
/// else is accepted.
pub open spec fn shape_value(s: ShapeModel) -> Option<ValueModel> {
    match s {
        ShapeModel::Str(t) => Some(ValueModel::Str(t)),
        ShapeModel::Bool(b) => Some(ValueModel::Bool(b)),
        ShapeModel::Int(i) => Some(ValueModel::Int(i)),
        _ => None,
    }
}

/// Why a non-convertible shape is rejected.
pub open spec fn shape_flaw(s: ShapeModel) -> BadValueKind {
    match s {
        ShapeModel::FracNumber => BadValueKind::FracNumber,
        ShapeModel::Null => BadValueKind::Null,
        _ => BadValueKind::Nested,
    }
}

/// The shape a value serializes back to.
pub open spec fn shape_of_value(v: ValueModel) -> ShapeModel {
    match v {
        ValueModel::Str(s) => ShapeModel::Str(s),
        ValueModel::Bool(b) => ShapeModel::Bool(b),
        ValueModel::Int(i) => ShapeModel::Int(i),
    }
}

impl JsonDoc {
    /// Looks the shape supplied for `name` up; the first entry wins.
    pub fn get_shape(&self, name: &String) -> (r: Option<&JsonShape>)
        ensures
            match r {
                Some(s) => doc_get(self@, name@) == Some(s@),
                None => doc_get(self@, name@) is None,
            },
    {
        let mut i: usize = self.entries.len();
        proof {
            assert(self@.take(i as int) =~= self@);
        }
        while i > 0
            invariant
                i <= self.entries.len(),
                doc_get(self@, name@) == doc_get(self@.take(i as int), name@),
            decreases i,
        {
            i = i - 1;
            proof {
                assert(self@[i as int] == (self.entries@[i as int].0@, self.entries@[i as int].1@));
                assert(self@.take(i as int + 1).drop_last() =~= self@.take(i as int));
                assert(self@.take(i as int + 1).last() == self@[i as int]);
            }
            if self.entries[i].0.eq(name) {
                return Some(&self.entries[i].1);
            }
        }
        proof {
            assert(self@.take(0) =~= Seq::<(Seq<char>, ShapeModel)>::empty());
        }
        None
    }

    /// Whether the document supplies a value for `name`.
    pub fn has(&self, name: &String) -> (r: bool)
        ensures
            r == doc_has(self@, name@),
    {
        match self.get_shape(name) {
            Some(_) => true,
            None => false,
        }
    }
}

/// A resolved mapping serialized back to the JSON shape it round-trips
/// through: one key per resolved variable, in resolution order.
pub open spec fn doc_of_pairs(m: Seq<(Seq<char>, ValueModel)>) -> Seq<(Seq<char>, ShapeModel)> {
    m.map_values(|p: (Seq<char>, ValueModel)| (p.0, shape_of_value(p.1)))
}

/// Serializes a resolved mapping back to the document shape the JSON input
/// adapter consumes.
pub fn doc_of_values(vals: &ResolvedValues) -> (d: JsonDoc)
    ensures
        d@ == doc_of_pairs(vals@),
{
    let n = vals.entries.len();
    let mut entries: Vec<(String, JsonShape)> = Vec::new();
    let mut i: usize = 0;
    while i < n
        invariant
            i <= n,
            n == vals.entries.len(),
            entries@.len() == i,
            forall|j: int|
                0 <= j < i ==> (#[trigger] entries@[j]).0@ == vals.entries@[j].0@
                    && entries@[j].1@ == shape_of_value(vals.entries@[j].1@),
        decreases n - i,
    {
        let name = vals.entries[i].0.clone();
        let shape = match &vals.entries[i].1 {
            Value::Str(s) => JsonShape::Str(s.clone()),
            Value::Bool(b) => JsonShape::Bool(*b),
            Value::Int(x) => JsonShape::Int(*x),
        };
        let ghost gname = name@;
        let ghost gshape = shape@;
        proof {
            assert(gshape == shape_of_value(vals.entries@[i as int].1@));
        }
        entries.push((name, shape));
        i = i + 1;
        proof {
            assert(entries@[i as int - 1].0@ == gname);
            assert(entries@[i as int - 1].1@ == gshape);
        }
    }
    let d = JsonDoc { entries };
    proof {
        assert forall|j: int| 0 <= j < n implies d@[j] == doc_of_pairs(vals@)[j] by {
            assert(d@[j] == (d.entries@[j].0@, d.entries@[j].1@));
            assert(vals@[j] == (vals.entries@[j].0@, vals.entries@[j].1@));
            assert(doc_of_pairs(vals@)[j] == (vals@[j].0, shape_of_value(vals@[j].1)));
        }
        assert(d@ =~= doc_of_pairs(vals@));
    }
    d
}

/// The warnings for document keys that name no declaration, in document
/// order.
pub open spec fn unknown_warnings(
    decls: Seq<DeclModel>,
    doc: Seq<(Seq<char>, ShapeModel)>,
) -> Seq<WarningModel>
    decreases doc.len(),
{
    if doc.len() == 0 {
        Seq::empty()
    } else {
        let rest = unknown_warnings(decls, doc.drop_last());
        if is_decl_name(decls, doc.last().0) {
            rest
        } else {
            rest.push(WarningModel::Unknown(doc.last().0))
        }
    }
}

/// Collects a warning for every document key that names no declaration;
/// processing continues past them.
pub fn collect_unknown_warnings(decls: &Vec<VarDecl>, doc: &JsonDoc) -> (w: Vec<Warning>)
    ensures
        w@.map_values(|x: Warning| x@) == unknown_warnings(decl_models(decls@), doc@),
{
    let n = doc.entries.len();
    let mut out: Vec<Warning> = Vec::new();
    let mut i: usize = 0;
    while i < n
        invariant
            i <= n,
            n == doc.entries.len(),
            out@.map_values(|x: Warning| x@)
                =~= unknown_warnings(decl_models(decls@), doc@.take(i as int)),
        decreases n - i,
    {
        proof {
            assert(doc@[i as int] == (doc.entries@[i as int].0@, doc.entries@[i as int].1@));
            assert(doc@.take(i as int + 1).drop_last() =~= doc@.take(i as int));
            assert(doc@.take(i as int + 1).last() == doc@[i as int]);
        }
        if !is_declared(decls, &doc.entries[i].0) {
            out.push(Warning::UnknownVariable(doc.entries[i].0.clone()));
        }
        i = i + 1;
        proof {
            assert(out@.map_values(|x: Warning| x@)
                =~= unknown_warnings(decl_models(decls@), doc@.take(i as int)));
        }
    }
    proof {
        assert(doc@.take(n as int) =~= doc@);
    }
    out
}

} // verus!

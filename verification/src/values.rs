use vstd::prelude::*;

verus! {

/// A resolved variable value: the closed three-variant type used uniformly by
/// every input source (interactive answer, JSON-supplied value, computed
/// default). No nested or composite values are representable.
#[derive(Debug, PartialEq, Eq)]
pub enum Value {
    Str(String),
    Bool(bool),
    Int(i64),
}

impl Clone for Value {
    /// The clone models the same value.
    fn clone(&self) -> (res: Value)
        ensures
            res@ == self@,
    {
        match self {
            Value::Str(s) => Value::Str(s.clone()),
            Value::Bool(b) => Value::Bool(*b),
            Value::Int(i) => Value::Int(*i),
        }
    }
}

/// Mathematical model of a [`Value`].
pub ghost enum ValueModel {
    Str(Seq<char>),
    Bool(bool),
    Int(int),
}

impl View for Value {
    type V = ValueModel;

    open spec fn view(&self) -> ValueModel {
        match self {
            Value::Str(s) => ValueModel::Str(s@),
            Value::Bool(b) => ValueModel::Bool(*b),
            Value::Int(i) => ValueModel::Int(*i as int),
        }
    }
}

/// Two values carry the same runtime type. The driver dispatches on the type
/// of the computed default, and the value finally inserted for a declaration
/// always has that same type.
pub open spec fn same_kind(a: ValueModel, b: ValueModel) -> bool {
    match (a, b) {
        (ValueModel::Str(_), ValueModel::Str(_)) => true,
        (ValueModel::Bool(_), ValueModel::Bool(_)) => true,
        (ValueModel::Int(_), ValueModel::Int(_)) => true,
        _ => false,
    }
}

/// Looks a name up in a sequence of (name, value) pairs; the entry pushed
/// last wins, matching repeated insertion into a mapping.
pub open spec fn pairs_get(m: Seq<(Seq<char>, ValueModel)>, k: Seq<char>) -> Option<ValueModel>
    decreases m.len(),
{
    if m.len() == 0 {
        None
    } else if m.last().0 == k {
        Some(m.last().1)
    } else {
        pairs_get(m.drop_last(), k)
    }
}

pub open spec fn pairs_has(m: Seq<(Seq<char>, ValueModel)>, k: Seq<char>) -> bool {
    pairs_get(m, k) is Some
}

/// The resolved mapping from variable name to value, built incrementally in
/// declaration order. `entries` keeps the order in which variables were
/// resolved; lookup treats the latest entry for a name as current.
#[derive(Debug, Clone, PartialEq, Eq)]
pub struct ResolvedValues {
    pub entries: Vec<(String, Value)>,
}

impl View for ResolvedValues {
    type V = Seq<(Seq<char>, ValueModel)>;

    open spec fn view(&self) -> Seq<(Seq<char>, ValueModel)> {
        self.entries@.map_values(|e: (String, Value)| (e.0@, e.1@))
    }
}

impl ResolvedValues {
    pub fn new() -> (r: ResolvedValues)
        ensures
            r@ == Seq::<(Seq<char>, ValueModel)>::empty(),
    {
        let r = ResolvedValues { entries: Vec::new() };
        proof {
            assert(r@ =~= Seq::<(Seq<char>, ValueModel)>::empty());
        }
        r
    }

    pub fn len(&self) -> (r: usize)
        ensures
            r == self@.len(),
    {
        self.entries.len()
    }

    /// Records the value resolved for `name`.
    pub fn insert(&mut self, name: String, v: Value)
        ensures
            final(self)@ == old(self)@.push((name@, v@)),
    {
        let ghost before = self@;
        let ghost nm = name@;
        let ghost vv = v@;
        self.entries.push((name, v));
        proof {
            assert(self@ =~= before.push((nm, vv)));
        }
    }

    /// Looks up the value currently resolved for `name`.
    pub fn get(&self, name: &String) -> (r: Option<&Value>)
        ensures
            match r {
                Some(v) => pairs_get(self@, name@) == Some(v@),
                None => pairs_get(self@, name@) is None,
            },
    {
        let mut i: usize = self.entries.len();
        proof {
            assert(self@.take(i as int) =~= self@);
        }
        while i > 0
            invariant
                i <= self.entries.len(),
                pairs_get(self@, name@) == pairs_get(self@.take(i as int), name@),
            decreases i,
        {
            i = i - 1;
            proof {
                assert(self@[i as int] == (self.entries@[i as int].0@, self.entries@[i as int].1@));
                assert(self@.take(i as int + 1).drop_last() =~= self@.take(i as int));
                assert(self@.take(i as int + 1).last() == self@[i as int]);
            }
            if self.entries[i].0.eq(name) {
                return Some(&self.entries[i].1);
            }
        }
        proof {
            assert(self@.take(0) =~= Seq::<(Seq<char>, ValueModel)>::empty());
        }
        None
    }

    /// Whether a value has been resolved for `name`.
    pub fn contains(&self, name: &String) -> (r: bool)
        ensures
            r == pairs_has(self@, name@),
    {
        match self.get(name) {
            Some(_) => true,
            None => false,
        }
    }
}

} // verus!

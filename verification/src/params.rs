//! The parameter table: string keys mapped to tagged values.
//!
//! Parameters are owned and mutated by the caller between frames; the machine
//! only reads them. A lookup that misses, or that finds the wrong variant, is
//! never an error — the reader falls back to a defined default (weight zero,
//! rule inactive) so that partially configured parameter sets are tolerated.

use crate::scalar::Scalar;
use vstd::prelude::*;

verus! {

/// A tagged parameter value: a blend weight or a boolean transition rule.
#[derive(Clone, Copy, Debug, PartialEq, Eq, Structural)]
pub enum Parameter {
    /// Controls blend weight in a combiner node.
    Weight(Scalar),
    /// Gates whether a transition may activate.
    Rule(bool),
}

/// One `key -> value` binding of the table.
pub struct ParamEntry {
    pub key: String,
    pub value: Parameter,
}

/// The mathematical content of a binding list: later entries win.
pub open spec fn params_map(s: Seq<ParamEntry>) -> Map<Seq<char>, Parameter>
    decreases s.len(),
{
    if s.len() == 0 {
        Map::empty()
    } else {
        params_map(s.drop_last()).insert(s.last().key@, s.last().value)
    }
}

/// String-keyed table of parameters. Its view is the map from key to the
/// value most recently set for that key.
pub struct ParameterContainer {
    entries: Vec<ParamEntry>,
}

impl View for ParameterContainer {
    type V = Map<Seq<char>, Parameter>;

    closed spec fn view(&self) -> Map<Seq<char>, Parameter> {
        params_map(self.entries@)
    }
}

/// Largest index whose entry carries `key`, if any: the binding that wins.
spec fn last_index_of(s: Seq<ParamEntry>, key: Seq<char>) -> int
    decreases s.len(),
{
    if s.len() == 0 {
        -1
    } else if s.last().key@ == key {
        s.len() - 1
    } else {
        last_index_of(s.drop_last(), key)
    }
}

proof fn lemma_last_index_of(s: Seq<ParamEntry>, key: Seq<char>)
    ensures
        last_index_of(s, key) < s.len(),
        last_index_of(s, key) >= 0 ==> {
            &&& s[last_index_of(s, key)].key@ == key
            &&& forall|j: int| last_index_of(s, key) < j < s.len() ==> s[j].key@ != key
        },
        last_index_of(s, key) < 0 ==> forall|j: int| 0 <= j < s.len() ==> s[j].key@ != key,
    decreases s.len(),
{
    if s.len() > 0 {
        lemma_last_index_of(s.drop_last(), key);
        assert(forall|j: int| 0 <= j < s.len() - 1 ==> s.drop_last()[j] == s[j]);
    }
}

/// The winning binding is what the map holds; with no binding the key is
/// absent.
proof fn lemma_params_map_get(s: Seq<ParamEntry>, key: Seq<char>)
    ensures
        last_index_of(s, key) >= 0 ==> {
            &&& params_map(s).contains_key(key)
            &&& params_map(s)[key] == s[last_index_of(s, key)].value
        },
        last_index_of(s, key) < 0 ==> !params_map(s).contains_key(key),
    decreases s.len(),
{
    if s.len() > 0 {
        lemma_params_map_get(s.drop_last(), key);
        assert(forall|j: int| 0 <= j < s.len() - 1 ==> s.drop_last()[j] == s[j]);
        lemma_last_index_of(s, key);
        lemma_last_index_of(s.drop_last(), key);
    }
}

/// Overwriting the winning binding in place is insertion into the map.
proof fn lemma_params_map_update(s: Seq<ParamEntry>, i: int, e: ParamEntry)
    requires
        0 <= i < s.len(),
        i == last_index_of(s, e.key@),
        s[i].key@ == e.key@,
    ensures
        params_map(s.update(i, e)) == params_map(s).insert(e.key@, e.value),
    decreases s.len(),
{
    let t = s.update(i, e);
    if i == s.len() - 1 {
        assert(t.drop_last() =~= s.drop_last());
        assert(params_map(t) =~= params_map(s).insert(e.key@, e.value));
    } else {
        lemma_params_map_update(s.drop_last(), i, e);
        assert(t.drop_last() =~= s.drop_last().update(i, e));
        assert(t.last() == s.last());
        assert(params_map(t) =~= params_map(s).insert(e.key@, e.value));
    }
}

impl ParameterContainer {
    /// The empty table.
    pub fn new() -> (r: ParameterContainer)
        ensures
            r@ == Map::<Seq<char>, Parameter>::empty(),
    {
        ParameterContainer { entries: Vec::new() }
    }

    /// Inserts or overwrites the binding for `key`; the last write wins,
    /// including across variants.
    pub fn set(&mut self, key: &str, value: Parameter)
        ensures
            final(self)@ == old(self)@.insert(key@, value),
    {
        proof {
            lemma_last_index_of(self.entries@, key@);
        }
        let ghost win = last_index_of(self.entries@, key@);
        let key_owned: String = key.to_owned();
        let n = self.entries.len();
        let mut i = n;
        #[verifier::loop_isolation(false)]
        while i > 0
            invariant
                self.entries@ == old(self).entries@,
                i <= n,
                n == self.entries@.len(),
                forall|j: int| i <= j < n ==> self.entries@[j].key@ != key@,
            decreases i,
        {
            i = i - 1;
            if self.entries[i].key == key_owned {
                proof {
                    assert(win == i);
                }
                let e = ParamEntry { key: key_owned, value };
                proof {
                    lemma_params_map_update(self.entries@, i as int, e);
                }
                self.entries.set(i, e);
                return ;
            }
        }
        proof {
            assert(win < 0);
        }
        let e = ParamEntry { key: key_owned, value };
        self.entries.push(e);
        proof {
            assert(self.entries@.drop_last() =~= old(self).entries@);
        }
    }

    /// The value bound to `key`, or `None` where nothing was ever set.
    pub fn get(&self, key: &str) -> (r: Option<Parameter>)
        ensures
            match r {
                Some(v) => self@.contains_key(key@) && self@[key@] == v,
                None => !self@.contains_key(key@),
            },
    {
        proof {
            lemma_last_index_of(self.entries@, key@);
            lemma_params_map_get(self.entries@, key@);
        }
        let ghost win = last_index_of(self.entries@, key@);
        let key_owned: String = key.to_owned();
        let n = self.entries.len();
        let mut i = n;
        #[verifier::loop_isolation(false)]
        while i > 0
            invariant
                i <= n,
                n == self.entries@.len(),
                forall|j: int| i <= j < n ==> self.entries@[j].key@ != key@,
            decreases i,
        {
            i = i - 1;
            if self.entries[i].key == key_owned {
                proof {
                    assert(win == i);
                }
                return Some(self.entries[i].value);
            }
        }
        None
    }
}

} // verus!

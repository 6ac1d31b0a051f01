//! The table of Pine Script built-in functions and values.

use vstd::prelude::*;

use crate::text::{chars_eq, chars_of};
use crate::types::{Type, TypeModel};

pub mod functions;
pub mod values;

verus! {

/// A built-in function: its name, a signature line for display, and the type it returns.
#[derive(Debug)]
pub struct BuiltinFunction {
    pub name: &'static str,
    pub signature: &'static str,
    pub return_type: Type,
}

/// The value of a `BuiltinFunction`.
pub struct FunctionEntry {
    pub name: Seq<char>,
    pub signature: Seq<char>,
    pub return_type: TypeModel,
}

impl BuiltinFunction {
    pub open spec fn model(self) -> FunctionEntry {
        FunctionEntry {
            name: self.name@,
            signature: self.signature@,
            return_type: self.return_type.model(),
        }
    }

    /// A copy with the same model.
    pub fn duplicate(&self) -> (r: BuiltinFunction)
        ensures
            r.model() == self.model(),
    {
        BuiltinFunction {
            name: self.name,
            signature: self.signature,
            return_type: self.return_type.duplicate(),
        }
    }
}

/// The map that a sequence of keyed entries builds when each entry is
/// inserted in turn: a later entry replaces an earlier one with the same key.
pub open spec fn keyed_table<V>(s: Seq<(Seq<char>, V)>) -> Map<Seq<char>, V>
    decreases s.len(),
{
    if s.len() == 0 {
        Map::empty()
    } else {
        keyed_table(s.drop_last()).insert(s.last().0, s.last().1)
    }
}

/// No two entries share a key.
pub open spec fn keys_unique<V>(s: Seq<(Seq<char>, V)>) -> bool {
    forall|i: int, j: int| 0 <= i < j < s.len() ==> s[i].0 != s[j].0
}

/// With unique keys, the table has exactly as many keys as there are entries.
pub proof fn lemma_keyed_table_len<V>(s: Seq<(Seq<char>, V)>)
    requires
        keys_unique(s),
    ensures
        keyed_table(s).dom().finite(),
        keyed_table(s).dom().len() == s.len(),
    decreases s.len(),
{
    if s.len() > 0 {
        let t = s.drop_last();
        assert(keys_unique(t)) by {
            assert forall|i: int, j: int| 0 <= i < j < t.len() implies t[i].0 != t[j].0 by {
                assert(t[i] == s[i] && t[j] == s[j]);
            }
        }
        lemma_keyed_table_len(t);
        lemma_keyed_table_unique(t);
        if keyed_table(t).contains_key(s.last().0) {
            let i = choose|i: int| 0 <= i < t.len() && #[trigger] t[i].0 == s.last().0;
            assert(t[i] == s[i]);
            assert(false);
        }
    }
}

/// With unique keys, the table maps each key to its own entry and has no other keys.
pub proof fn lemma_keyed_table_unique<V>(s: Seq<(Seq<char>, V)>)
    requires
        keys_unique(s),
    ensures
        forall|i: int|
            0 <= i < s.len() ==> keyed_table(s).contains_key(#[trigger] s[i].0) && keyed_table(s)[s[i].0]
                == s[i].1,
        forall|k: Seq<char>|
            keyed_table(s).contains_key(k) ==> exists|i: int| 0 <= i < s.len() && #[trigger] s[i].0 == k,
    decreases s.len(),
{
    if s.len() > 0 {
        let p = s.drop_last();
        assert(keys_unique(p));
        lemma_keyed_table_unique(p);
        assert forall|k: Seq<char>| keyed_table(s).contains_key(k) implies exists|i: int|
            0 <= i < s.len() && #[trigger] s[i].0 == k by {
            if k != s.last().0 {
                assert(keyed_table(p).contains_key(k));
                let i = choose|i: int| 0 <= i < p.len() && #[trigger] p[i].0 == k;
                assert(p[i] == s[i]);
                assert(s[i].0 == k);
            } else {
                assert(s[s.len() - 1].0 == k);
            }
        }
        assert forall|i: int| 0 <= i < s.len() implies keyed_table(s).contains_key(
            #[trigger] s[i].0,
        ) && keyed_table(s)[s[i].0] == s[i].1 by {
            if i < s.len() - 1 {
                assert(p[i] == s[i]);
            }
        }
    }
}

/// Replacing the entry whose key is `e.0` inserts `e` into the table.
pub proof fn lemma_keyed_table_replace<V>(s: Seq<(Seq<char>, V)>, j: int, e: (Seq<char>, V))
    requires
        keys_unique(s),
        0 <= j < s.len(),
        s[j].0 == e.0,
    ensures
        keys_unique(s.update(j, e)),
        keyed_table(s.update(j, e)) == keyed_table(s).insert(e.0, e.1),
{
    let t = s.update(j, e);
    assert(t.len() == s.len());
    assert(keys_unique(t)) by {
        assert forall|a: int, b: int| 0 <= a < b < t.len() implies t[a].0 != t[b].0 by {
            assert(s[a].0 == t[a].0 && s[b].0 == t[b].0);
        }
    }
    lemma_keyed_table_unique(s);
    lemma_keyed_table_unique(t);
    let m1 = keyed_table(t);
    let m2 = keyed_table(s).insert(e.0, e.1);
    assert forall|k: Seq<char>| m1.contains_key(k) <==> m2.contains_key(k) by {
        if m1.contains_key(k) {
            let i = choose|i: int| 0 <= i < t.len() && #[trigger] t[i].0 == k;
            assert(s[i].0 == k);
            assert(keyed_table(s).contains_key(s[i].0));
        }
        if m2.contains_key(k) && k != e.0 {
            assert(keyed_table(s).contains_key(k));
            let i = choose|i: int| 0 <= i < s.len() && #[trigger] s[i].0 == k;
            assert(t[i].0 == k);
            assert(m1.contains_key(t[i].0));
        }
        if k == e.0 {
            assert(t[j].0 == k);
            assert(m1.contains_key(t[j].0));
        }
    }
    assert forall|k: Seq<char>| m1.contains_key(k) implies m1[k] == m2[k] by {
        let i = choose|i: int| 0 <= i < t.len() && #[trigger] t[i].0 == k;
        if i != j {
            assert(s[i] == t[i]);
        }
    }
    assert(m1 =~= m2);
}

/// Appending an entry whose key is new inserts it into the table.
pub proof fn lemma_keyed_table_push<V>(s: Seq<(Seq<char>, V)>, e: (Seq<char>, V))
    requires
        keys_unique(s),
        forall|i: int| 0 <= i < s.len() ==> s[i].0 != e.0,
    ensures
        keys_unique(s.push(e)),
        keyed_table(s.push(e)) == keyed_table(s).insert(e.0, e.1),
{
    assert(s.push(e).drop_last() =~= s);
}

/// A key is in the table exactly when some entry has it.
pub proof fn lemma_keyed_table_dom<V>(s: Seq<(Seq<char>, V)>, k: Seq<char>)
    ensures
        keyed_table(s).contains_key(k) <==> exists|i: int| 0 <= i < s.len() && #[trigger] s[i].0 == k,
    decreases s.len(),
{
    if s.len() > 0 {
        let t = s.drop_last();
        lemma_keyed_table_dom(t, k);
        if keyed_table(t).contains_key(k) {
            let i = choose|i: int| 0 <= i < t.len() && #[trigger] t[i].0 == k;
            assert(s[i] == t[i]);
        }
        if exists|i: int| 0 <= i < s.len() && #[trigger] s[i].0 == k {
            let i = choose|i: int| 0 <= i < s.len() && #[trigger] s[i].0 == k;
            if i < s.len() - 1 {
                assert(t[i] == s[i]);
            }
        }
    }
}

/// The entry with a key that no later entry has is the one the table holds
/// for that key: a later entry replaces an earlier one.
pub proof fn lemma_keyed_table_last<V>(s: Seq<(Seq<char>, V)>, j: int)
    requires
        0 <= j < s.len(),
        forall|i: int| j < i < s.len() ==> #[trigger] s[i].0 != s[j].0,
    ensures
        keyed_table(s).contains_key(s[j].0),
        keyed_table(s)[s[j].0] == s[j].1,
    decreases s.len(),
{
    if j < s.len() - 1 {
        let t = s.drop_last();
        assert forall|i: int| j < i < t.len() implies #[trigger] t[i].0 != t[j].0 by {
            assert(t[i] == s[i] && t[j] == s[j]);
        }
        lemma_keyed_table_last(t, j);
        assert(t[j] == s[j]);
        assert(s[s.len() - 1].0 != s[j].0);
    }
}

/// The name and model of every built-in function, in the order of the groups.
pub open spec fn function_entries() -> Seq<FunctionEntry> {
    functions::entries()
}

/// The name and type of every built-in value.
pub open spec fn value_entries() -> Seq<(Seq<char>, TypeModel)> {
    values::entries()
}

/// The built-in functions, keyed by name.
#[verifier::opaque]
pub open spec fn function_table() -> Map<Seq<char>, FunctionEntry> {
    keyed_table(function_entries().map_values(|f: FunctionEntry| (f.name, f)))
}

/// The built-in values, keyed by name.
#[verifier::opaque]
pub open spec fn value_table() -> Map<Seq<char>, TypeModel> {
    keyed_table(value_entries())
}

/// The tables of built-in functions and values, one entry per name.
#[derive(Debug)]
pub struct Builtins {
    functions: Vec<BuiltinFunction>,
    function_names: Vec<Vec<char>>,
    values: Vec<(String, Type)>,
    value_names: Vec<Vec<char>>,
}

impl Builtins {
    pub closed spec fn function_seq(self) -> Seq<(Seq<char>, FunctionEntry)> {
        self.functions@.map_values(|f: BuiltinFunction| (f.name@, f.model()))
    }

    pub closed spec fn value_seq(self) -> Seq<(Seq<char>, TypeModel)> {
        self.values@.map_values(|v: (String, Type)| (v.0@, v.1.model()))
    }

    /// The functions of this table, keyed by name.
    pub open spec fn functions_view(self) -> Map<Seq<char>, FunctionEntry> {
        keyed_table(self.function_seq())
    }

    /// The values of this table, keyed by name.
    pub open spec fn values_view(self) -> Map<Seq<char>, TypeModel> {
        keyed_table(self.value_seq())
    }

    /// Names are unique and the cached name characters match the entries.
    pub closed spec fn wf(self) -> bool {
        &&& keys_unique(self.function_seq())
        &&& keys_unique(self.value_seq())
        &&& self.function_names@.len() == self.functions@.len()
        &&& self.value_names@.len() == self.values@.len()
        &&& forall|i: int|
            0 <= i < self.functions@.len() ==> #[trigger] self.function_names@[i]@
                == self.functions@[i].name@
        &&& forall|i: int|
            0 <= i < self.values@.len() ==> #[trigger] self.value_names@[i]@ == self.values@[i].0@
    }

    /// The table of all built-in functions and values of Pine Script v6.
    pub fn new() -> (r: Self)
        ensures
            r.wf(),
            r.functions_view() == function_table(),
            r.values_view() == value_table(),
    {
        let mut table = Builtins {
            functions: Vec::new(),
            function_names: Vec::new(),
            values: Vec::new(),
            value_names: Vec::new(),
        };
        assert(table.function_seq() =~= Seq::empty());
        assert(table.value_seq() =~= Seq::empty());
        table.load_functions();
        table.load_values();
        table
    }

    fn load_functions(&mut self)
        requires
            old(self).wf(),
            old(self).functions@.len() == 0,
        ensures
            final(self).wf(),
            final(self).functions_view() == function_table(),
            final(self).values@ == old(self).values@,
    {
        let all = functions::builtin_functions();
        let ghost src = all@.map_values(|f: BuiltinFunction| (f.name@, f.model()));
        assert(self.function_seq() =~= Seq::empty());
        let mut i: usize = 0;
        while i < all.len()
            invariant
                self.wf(),
                i <= all@.len(),
                src == all@.map_values(|f: BuiltinFunction| (f.name@, f.model())),
                self.functions_view() == keyed_table(src.take(i as int)),
                self.values@ == old(self).values@,
            decreases all@.len() - i,
        {
            let f = all[i].duplicate();
            self.insert_function(f);
            assert(src.take(i + 1).drop_last() =~= src.take(i as int));
            i = i + 1;
        }
        assert(src.take(all@.len() as int) =~= src);
        assert(src =~= function_entries().map_values(|f: FunctionEntry| (f.name, f)));
        proof {
            reveal(function_table);
        }
    }

    fn load_values(&mut self)
        requires
            old(self).wf(),
            old(self).values@.len() == 0,
        ensures
            final(self).wf(),
            final(self).values_view() == value_table(),
            final(self).functions_view() == old(self).functions_view(),
    {
        let vals = values::builtin_values();
        let ghost vsrc = vals@.map_values(|e: (&'static str, Type)| (e.0@, e.1.model()));
        assert(self.value_seq() =~= Seq::empty());
        let mut j: usize = 0;
        while j < vals.len()
            invariant
                self.wf(),
                j <= vals@.len(),
                vsrc == vals@.map_values(|e: (&'static str, Type)| (e.0@, e.1.model())),
                self.values_view() == keyed_table(vsrc.take(j as int)),
                self.functions_view() == old(self).functions_view(),
            decreases vals@.len() - j,
        {
            let name = crate::text::string_of(chars_of(vals[j].0).as_slice());
            let ty = vals[j].1.duplicate();
            self.insert_value(name, ty);
            assert(vsrc.take(j + 1).drop_last() =~= vsrc.take(j as int));
            j = j + 1;
        }
        assert(vsrc.take(vals@.len() as int) =~= vsrc);
        proof {
            reveal(value_table);
        }
    }

    fn insert_function(&mut self, f: BuiltinFunction)
        requires
            old(self).wf(),
        ensures
            final(self).wf(),
            final(self).functions_view() == old(self).functions_view().insert(f.name@, f.model()),
            final(self).values@ == old(self).values@,
            final(self).value_names@ == old(self).value_names@,
    {
        let ghost e = (f.name@, f.model());
        let name = chars_of(f.name);
        match self.function_index(&name) {
            Some(k) => {
                proof {
                    lemma_keyed_table_replace(self.function_seq(), k as int, e);
                }
                self.functions.set(k, f);
                proof {
                    assert(self.function_seq() =~= old(self).function_seq().update(k as int, e));
                }
            },
            None => {
                proof {
                    lemma_keyed_table_push(old(self).function_seq(), e);
                }
                self.functions.push(f);
                self.function_names.push(name);
                proof {
                    assert(self.function_seq() =~= old(self).function_seq().push(e));
                }
            },
        }
    }

    fn insert_value(&mut self, name: String, ty: Type)
        requires
            old(self).wf(),
        ensures
            final(self).wf(),
            final(self).values_view() == old(self).values_view().insert(name@, ty.model()),
            final(self).functions_view() == old(self).functions_view(),
    {
        let ghost e = (name@, ty.model());
        let chars = chars_of(name.as_str());
        match self.value_index(&chars) {
            Some(k) => {
                proof {
                    lemma_keyed_table_replace(self.value_seq(), k as int, e);
                }
                self.values.set(k, (name, ty));
                proof {
                    assert(self.value_seq() =~= old(self).value_seq().update(k as int, e));
                }
            },
            None => {
                proof {
                    lemma_keyed_table_push(old(self).value_seq(), e);
                }
                self.values.push((name, ty));
                self.value_names.push(chars);
                proof {
                    assert(self.value_seq() =~= old(self).value_seq().push(e));
                }
            },
        }
    }

    /// The position of the function named `name`, if there is one.
    fn function_index(&self, name: &Vec<char>) -> (r: Option<usize>)
        requires
            self.wf(),
        ensures
            match r {
                Some(k) => k < self.functions@.len() && self.functions@[k as int].name@ == name@,
                None => forall|i: int|
                    0 <= i < self.functions@.len() ==> self.functions@[i].name@ != name@,
            },
    {
        let mut i: usize = 0;
        while i < self.function_names.len()
            invariant
                self.wf(),
                i <= self.functions@.len(),
                forall|j: int| 0 <= j < i ==> self.functions@[j].name@ != name@,
            decreases self.functions@.len() - i,
        {
            if chars_eq(&self.function_names[i], name) {
                return Some(i);
            }
            i = i + 1;
        }
        None
    }

    /// The position of the value named `name`, if there is one.
    fn value_index(&self, name: &Vec<char>) -> (r: Option<usize>)
        requires
            self.wf(),
        ensures
            match r {
                Some(k) => k < self.values@.len() && self.values@[k as int].0@ == name@,
                None => forall|i: int| 0 <= i < self.values@.len() ==> self.values@[i].0@ != name@,
            },
    {
        let mut i: usize = 0;
        while i < self.value_names.len()
            invariant
                self.wf(),
                i <= self.values@.len(),
                forall|j: int| 0 <= j < i ==> self.values@[j].0@ != name@,
            decreases self.values@.len() - i,
        {
            if chars_eq(&self.value_names[i], name) {
                return Some(i);
            }
            i = i + 1;
        }
        None
    }

    /// The built-in function whose name is the characters `name`.
    pub fn function_named(&self, name: &Vec<char>) -> (r: Option<&BuiltinFunction>)
        requires
            self.wf(),
        ensures
            r is Some <==> self.functions_view().contains_key(name@),
            r matches Some(f) ==> f.model() == self.functions_view()[name@],
    {
        proof {
            lemma_keyed_table_unique(self.function_seq());
        }
        match self.function_index(name) {
            Some(k) => {
                assert(self.function_seq()[k as int].0 == name@);
                Some(&self.functions[k])
            },
            None => {
                assert forall|i: int| 0 <= i < self.function_seq().len() implies #[trigger] self.function_seq()[i].0
                    != name@ by {
                    assert(self.function_seq()[i].0 == self.functions@[i].name@);
                }
                None
            },
        }
    }

    /// The type of the built-in value whose name is the characters `name`.
    pub fn value_type_named(&self, name: &Vec<char>) -> (r: Option<&Type>)
        requires
            self.wf(),
        ensures
            r is Some <==> self.values_view().contains_key(name@),
            r matches Some(t) ==> t.model() == self.values_view()[name@],
    {
        proof {
            lemma_keyed_table_unique(self.value_seq());
        }
        match self.value_index(name) {
            Some(k) => {
                assert(self.value_seq()[k as int].0 == name@);
                Some(&self.values[k].1)
            },
            None => {
                assert forall|i: int| 0 <= i < self.value_seq().len() implies #[trigger] self.value_seq()[i].0
                    != name@ by {
                    assert(self.value_seq()[i].0 == self.values@[i].0@);
                }
                None
            },
        }
    }

    /// The built-in function named `name`.
    pub fn function(&self, name: &str) -> (r: Option<&BuiltinFunction>)
        requires
            self.wf(),
        ensures
            r is Some <==> self.functions_view().contains_key(name@),
            r matches Some(f) ==> f.model() == self.functions_view()[name@],
    {
        self.function_named(&chars_of(name))
    }

    /// Whether a built-in function is named `name`.
    pub fn is_function(&self, name: &str) -> (r: bool)
        requires
            self.wf(),
        ensures
            r == self.functions_view().contains_key(name@),
    {
        self.function(name).is_some()
    }

    /// The type of the built-in value named `name`.
    pub fn value_type(&self, name: &str) -> (r: Option<&Type>)
        requires
            self.wf(),
        ensures
            r is Some <==> self.values_view().contains_key(name@),
            r matches Some(t) ==> t.model() == self.values_view()[name@],
    {
        self.value_type_named(&chars_of(name))
    }

    /// Every built-in value with its type, one entry per name.
    pub fn values(&self) -> (r: &Vec<(String, Type)>)
        requires
            self.wf(),
        ensures
            keys_unique(r@.map_values(|v: (String, Type)| (v.0@, v.1.model()))),
            keyed_table(r@.map_values(|v: (String, Type)| (v.0@, v.1.model())))
                == self.values_view(),
            r@.map_values(|v: (String, Type)| (v.0@, v.1.model())) == self.value_seq(),
    {
        &self.values
    }

    /// Every built-in function, one entry per name.
    pub fn functions(&self) -> (r: &Vec<BuiltinFunction>)
        requires
            self.wf(),
        ensures
            keys_unique(r@.map_values(|f: BuiltinFunction| (f.name@, f.model()))),
            keyed_table(r@.map_values(|f: BuiltinFunction| (f.name@, f.model())))
                == self.functions_view(),
    {
        &self.functions
    }
}

/// The built-in functions a table hands out have distinct names, one for
/// each name the table knows: as many functions as names.
pub proof fn lemma_function_count(b: Builtins, fs: Seq<BuiltinFunction>)
    requires
        keys_unique(fs.map_values(|f: BuiltinFunction| (f.name@, f.model()))),
        keyed_table(fs.map_values(|f: BuiltinFunction| (f.name@, f.model()))) == b.functions_view(),
    ensures
        forall|i: int, j: int| 0 <= i < j < fs.len() ==> fs[i].name@ != fs[j].name@,
        forall|i: int| 0 <= i < fs.len() ==> #[trigger] b.functions_view().contains_key(fs[i].name@)
            && b.functions_view()[fs[i].name@] == fs[i].model(),
        b.functions_view().dom().len() == fs.len(),
{
    let p = fs.map_values(|f: BuiltinFunction| (f.name@, f.model()));
    lemma_keyed_table_len(p);
    lemma_keyed_table_unique(p);
    assert forall|i: int, j: int| 0 <= i < j < fs.len() implies fs[i].name@ != fs[j].name@ by {
        assert(p[i].0 == fs[i].name@ && p[j].0 == fs[j].name@);
    }
    assert forall|i: int| 0 <= i < fs.len() implies #[trigger] b.functions_view().contains_key(fs[i].name@)
        && b.functions_view()[fs[i].name@] == fs[i].model() by {
        assert(p[i] == (fs[i].name@, fs[i].model()));
    }
}

/// The table of built-in functions holds, for each name, the last entry
/// with that name: a later entry replaces an earlier one.
pub proof fn lemma_function_table_last(j: int)
    requires
        0 <= j < function_entries().len(),
        forall|i: int| j < i < function_entries().len() ==> #[trigger] function_entries()[i].name != function_entries()[j].name,
    ensures
        function_table().contains_key(function_entries()[j].name),
        function_table()[function_entries()[j].name] == function_entries()[j],
{
    reveal(function_table);
    let s = function_entries().map_values(|f: FunctionEntry| (f.name, f));
    assert forall|i: int| j < i < s.len() implies #[trigger] s[i].0 != s[j].0 by {
        assert(s[i].0 == function_entries()[i].name);
    }
    lemma_keyed_table_last(s, j);
}

/// The table of built-in values holds, for each name, the type of the last
/// entry with that name: the last pair with a name wins.
pub proof fn lemma_value_table_last(j: int)
    requires
        0 <= j < value_entries().len(),
        forall|i: int| j < i < value_entries().len() ==> #[trigger] value_entries()[i].0 != value_entries()[j].0,
    ensures
        value_table().contains_key(value_entries()[j].0),
        value_table()[value_entries()[j].0] == value_entries()[j].1,
{
    reveal(value_table);
    lemma_keyed_table_last(value_entries(), j);
}

/// The names of the built-in function table are the names of the entries.
pub proof fn lemma_function_table_names()
    ensures
        function_table().dom() == function_entries().map_values(|f: FunctionEntry| f.name).to_set(),
{
    reveal(function_table);
    let s = function_entries().map_values(|f: FunctionEntry| (f.name, f));
    let names = function_entries().map_values(|f: FunctionEntry| f.name);
    assert forall|k: Seq<char>| function_table().dom().contains(k) <==> names.to_set().contains(k) by {
        lemma_keyed_table_dom(s, k);
        if names.contains(k) {
            let i = choose|i: int| 0 <= i < names.len() && names[i] == k;
            assert(s[i].0 == k);
        }
        if exists|i: int| 0 <= i < s.len() && #[trigger] s[i].0 == k {
            let i = choose|i: int| 0 <= i < s.len() && #[trigger] s[i].0 == k;
            assert(names[i] == k);
        }
    }
    assert(function_table().dom() =~= names.to_set());
}

/// The built-in functions that the table made by `Builtins::new` hands out
/// have distinct names, as many as the distinct names among the entries.
pub proof fn lemma_builtin_function_names(b: Builtins, fs: Seq<BuiltinFunction>)
    requires
        b.functions_view() == function_table(),
        keys_unique(fs.map_values(|f: BuiltinFunction| (f.name@, f.model()))),
        keyed_table(fs.map_values(|f: BuiltinFunction| (f.name@, f.model()))) == b.functions_view(),
    ensures
        forall|i: int, j: int| 0 <= i < j < fs.len() ==> fs[i].name@ != fs[j].name@,
        fs.len() == function_entries().map_values(|f: FunctionEntry| f.name).to_set().len(),
{
    lemma_function_count(b, fs);
    lemma_function_table_names();
}

} // verus!

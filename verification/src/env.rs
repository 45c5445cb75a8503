//! Typing environments: finite maps from variable names to types.

use vstd::prelude::*;
use crate::typ::Typ;

verus! {

/// One variable with the type bound to it.
struct Binding {
    name: String,
    typ: Typ,
}

/// A typing environment. No name is bound twice: binding a name again
/// replaces what was bound to it before.
pub struct Env {
    bindings: Vec<Binding>,
}

/// Whether the binding at index `i` is that of `name`.
spec fn binds(bindings: Seq<Binding>, name: Seq<char>, i: int) -> bool {
    0 <= i < bindings.len() && bindings[i].name@ == name
}

/// Whether every name occurs at most once.
spec fn distinct_names(bindings: Seq<Binding>) -> bool {
    forall|i: int, j: int|
        0 <= i < j < bindings.len() ==> bindings[i].name@ != bindings[j].name@
}

/// The map that a sequence of bindings stands for.
spec fn bindings_map(bindings: Seq<Binding>) -> Map<Seq<char>, Typ> {
    Map::new(
        |name: Seq<char>| exists|i: int| binds(bindings, name, i),
        |name: Seq<char>| bindings[choose|i: int| binds(bindings, name, i)].typ,
    )
}

/// With distinct names, the binding at index `i` is what the map holds for
/// its name.
proof fn lemma_binding_in_map(bindings: Seq<Binding>, i: int)
    requires
        distinct_names(bindings),
        0 <= i < bindings.len(),
    ensures
        bindings_map(bindings).contains_key(bindings[i].name@),
        bindings_map(bindings)[bindings[i].name@] == bindings[i].typ,
{
    assert(binds(bindings, bindings[i].name@, i));
}

/// Replacing the binding of a name changes the map at that name only.
proof fn lemma_replace(bindings: Seq<Binding>, i: int, binding: Binding)
    requires
        distinct_names(bindings),
        0 <= i < bindings.len(),
        binding.name@ == bindings[i].name@,
    ensures
        distinct_names(bindings.update(i, binding)),
        bindings_map(bindings.update(i, binding)) == bindings_map(bindings).insert(
            binding.name@,
            binding.typ,
        ),
{
    let after = bindings.update(i, binding);
    let expected = bindings_map(bindings).insert(binding.name@, binding.typ);
    assert forall|name: Seq<char>, j: int| binds(after, name, j) == binds(bindings, name, j) by {}
    assert forall|name: Seq<char>| #[trigger] bindings_map(after).contains_key(name) implies {
        &&& expected.contains_key(name)
        &&& bindings_map(after)[name] == expected[name]
    } by {
        let j = choose|j: int| binds(after, name, j);
        lemma_binding_in_map(after, j);
        if j != i {
            lemma_binding_in_map(bindings, j);
        }
    }
    assert forall|name: Seq<char>| #[trigger] expected.contains_key(name) implies bindings_map(
        after,
    ).contains_key(name) by {
        if name == binding.name@ {
            assert(binds(after, name, i));
        } else {
            let j = choose|j: int| binds(bindings, name, j);
            assert(binds(after, name, j));
        }
    }
    assert(bindings_map(after) =~= expected);
}

/// Adding a binding of a new name adds it to the map.
proof fn lemma_append(bindings: Seq<Binding>, binding: Binding)
    requires
        distinct_names(bindings),
        forall|i: int| !binds(bindings, binding.name@, i),
    ensures
        distinct_names(bindings.push(binding)),
        bindings_map(bindings.push(binding)) == bindings_map(bindings).insert(
            binding.name@,
            binding.typ,
        ),
{
    let after = bindings.push(binding);
    let expected = bindings_map(bindings).insert(binding.name@, binding.typ);
    let last = bindings.len() as int;
    assert forall|i: int, j: int| 0 <= i < j < after.len() implies after[i].name@
        != after[j].name@ by {
        if j == last {
            assert(!binds(bindings, binding.name@, i));
        }
    }
    assert forall|name: Seq<char>| #[trigger] bindings_map(after).contains_key(name) implies {
        &&& expected.contains_key(name)
        &&& bindings_map(after)[name] == expected[name]
    } by {
        let j = choose|j: int| binds(after, name, j);
        lemma_binding_in_map(after, j);
        if j != last {
            assert(binds(bindings, name, j));
            lemma_binding_in_map(bindings, j);
        }
    }
    assert forall|name: Seq<char>| #[trigger] expected.contains_key(name) implies bindings_map(
        after,
    ).contains_key(name) by {
        if name == binding.name@ {
            assert(binds(after, name, last));
        } else {
            let j = choose|j: int| binds(bindings, name, j);
            assert(binds(after, name, j));
        }
    }
    assert(bindings_map(after) =~= expected);
}

impl View for Env {
    type V = Map<Seq<char>, Typ>;

    /// The finite map from names to types that the environment stands for.
    closed spec fn view(&self) -> Map<Seq<char>, Typ> {
        bindings_map(self.bindings@)
    }
}

impl Env {
    #[verifier::type_invariant]
    spec fn well_formed(self) -> bool {
        distinct_names(self.bindings@)
    }

    /// The environment that binds no name.
    pub fn new() -> (env: Env)
        ensures
            env@ == Map::<Seq<char>, Typ>::empty(),
    {
        let env = Env { bindings: Vec::new() };
        assert(env@ =~= Map::<Seq<char>, Typ>::empty());
        env
    }

    /// The index of the binding of `name`, if it is bound.
    fn position(bindings: &Vec<Binding>, name: &String) -> (at: Option<usize>)
        ensures
            match at {
                Some(i) => binds(bindings@, name@, i as int),
                None => forall|j: int| !binds(bindings@, name@, j),
            },
    {
        let mut i: usize = 0;
        while i < bindings.len()
            invariant
                i <= bindings.len(),
                forall|j: int| 0 <= j < i ==> !binds(bindings@, name@, j),
            decreases bindings.len() - i,
        {
            if bindings[i].name == *name {
                return Some(i);
            }
            i += 1;
        }
        None
    }

    /// Looks a name up: the type bound to it, or nothing where it is unbound.
    pub fn get(&self, name: &String) -> (found: Option<&Typ>)
        ensures
            match found {
                Some(typ) => self@.contains_key(name@) && *typ == self@[name@],
                None => !self@.contains_key(name@),
            },
    {
        proof {
            use_type_invariant(self);
        }
        match Self::position(&self.bindings, name) {
            Some(i) => {
                proof {
                    lemma_binding_in_map(self.bindings@, i as int);
                }
                Some(&self.bindings[i].typ)
            },
            None => None,
        }
    }

    /// Binds `name` to `typ`, in place of whatever it was bound to.
    pub fn insert(&mut self, name: String, typ: Typ)
        ensures
            final(self)@ == old(self)@.insert(name@, typ),
    {
        proof {
            use_type_invariant(&*self);
        }
        // The bindings leave the environment while they change, so that it is
        // well formed at every moment.
        let mut bindings: Vec<Binding> = Vec::new();
        std::mem::swap(&mut self.bindings, &mut bindings);
        let binding = Binding { name, typ };
        match Self::position(&bindings, &binding.name) {
            Some(i) => {
                proof {
                    lemma_replace(bindings@, i as int, binding);
                }
                bindings.set(i, binding);
            },
            None => {
                proof {
                    lemma_append(bindings@, binding);
                }
                bindings.push(binding);
            },
        }
        self.bindings = bindings;
    }
}

impl Clone for Env {
    /// A copy that binds the same names to the same types.
    fn clone(&self) -> (copy: Self)
        ensures
            copy@ == self@,
    {
        proof {
            use_type_invariant(self);
        }
        let mut bindings: Vec<Binding> = Vec::new();
        let mut i: usize = 0;
        while i < self.bindings.len()
            invariant
                i <= self.bindings.len(),
                bindings@ == self.bindings@.subrange(0, i as int),
            decreases self.bindings.len() - i,
        {
            let binding = Binding {
                name: self.bindings[i].name.clone(),
                typ: self.bindings[i].typ.clone(),
            };
            bindings.push(binding);
            i += 1;
            assert(bindings@ =~= self.bindings@.subrange(0, i as int));
        }
        assert(bindings@ =~= self.bindings@);
        Env { bindings }
    }
}

} // verus!

//! Scopes: the variables bound at a point of a program.

use crate::ast::expression::{names_view, Identifier};
use crate::evaluate::build_in::{
    objects_view, BuildIn, CastIntFunction, InputFunction, LenFunction, PrintFunction,
};
use crate::evaluate::object::{Object, ValueView};
use crate::evaluate::semantics::{bind_parameters, build_in_named};
use vstd::string::StringExecFns;
use vstd::prelude::*;

verus! {

/// A scope: the variables bound in it. A name bound more than once stands
/// for its latest binding.
#[derive(Debug)]
pub struct Environment {
    pub store: Vec<(String, Object)>,
}

/// The mapping that a list of bindings stands for: later bindings of a name
/// hide earlier ones.
pub open spec fn bindings_map(bindings: Seq<(Seq<char>, ValueView)>) -> Map<Seq<char>, ValueView>
    decreases bindings.len(),
{
    if bindings.len() == 0 {
        Map::empty()
    } else {
        bindings_map(bindings.drop_last()).insert(bindings.last().0, bindings.last().1)
    }
}

/// The views of a list of bindings, in order.
pub open spec fn bindings_view(list: &Vec<(String, Object)>) -> Seq<(Seq<char>, ValueView)>
    decreases list,
{
    Seq::new(
        list.len() as nat,
        |i: int|
            if 0 <= i < list.len() {
                (list[i].0@, list[i].1@)
            } else {
                arbitrary()
            },
    )
}

impl Environment {
    /// The variables of this scope, as a mapping from name to value.
    pub open spec fn view(&self) -> Map<Seq<char>, ValueView>
        decreases self,
    {
        bindings_map(bindings_view(&self.store))
    }
}

} // verus!

verus! {

/// In the mapping of a list of bindings, a name stands for the value of its
/// last binding.
pub proof fn lemma_last_binding_wins(bindings: Seq<(Seq<char>, ValueView)>, name: Seq<char>, at: int)
    requires
        0 <= at < bindings.len(),
        bindings[at].0 == name,
        forall|i: int| at < i < bindings.len() ==> bindings[i].0 != name,
    ensures
        bindings_map(bindings).contains_key(name),
        bindings_map(bindings)[name] == bindings[at].1,
    decreases bindings.len(),
{
    if at < bindings.len() - 1 {
        lemma_last_binding_wins(bindings.drop_last(), name, at);
    }
}

/// A name that no binding of a list has is not in the mapping of the list.
pub proof fn lemma_unbound_name(bindings: Seq<(Seq<char>, ValueView)>, name: Seq<char>)
    requires
        forall|i: int| 0 <= i < bindings.len() ==> bindings[i].0 != name,
    ensures
        !bindings_map(bindings).contains_key(name),
    decreases bindings.len(),
{
    if bindings.len() > 0 {
        lemma_unbound_name(bindings.drop_last(), name);
    }
}

/// To replace the value of the last binding of a name is to bind the name
/// anew in the mapping.
pub proof fn lemma_rebind_last(
    bindings: Seq<(Seq<char>, ValueView)>,
    name: Seq<char>,
    at: int,
    value: ValueView,
)
    requires
        0 <= at < bindings.len(),
        bindings[at].0 == name,
        forall|i: int| at < i < bindings.len() ==> bindings[i].0 != name,
    ensures
        bindings_map(bindings.update(at, (name, value))) == bindings_map(bindings).insert(
            name,
            value,
        ),
    decreases bindings.len(),
{
    let updated = bindings.update(at, (name, value));
    if at == bindings.len() - 1 {
        assert(updated.drop_last() =~= bindings.drop_last());
        assert(bindings_map(updated) =~= bindings_map(bindings).insert(name, value));
    } else {
        lemma_rebind_last(bindings.drop_last(), name, at, value);
        assert(updated.drop_last() =~= bindings.drop_last().update(at, (name, value)));
        assert(bindings_map(updated) =~= bindings_map(bindings).insert(name, value));
    }
}

/// A binding added at the end binds its name anew in the mapping.
pub proof fn lemma_bind_at_end(bindings: Seq<(Seq<char>, ValueView)>, name: Seq<char>, value: ValueView)
    ensures
        bindings_map(bindings.push((name, value))) == bindings_map(bindings).insert(name, value),
{
    assert(bindings.push((name, value)).drop_last() =~= bindings);
}

impl Environment {
    /// An empty scope.
    pub fn new() -> (env: Self)
        ensures
            env@ == Map::<Seq<char>, ValueView>::empty(),
    {
        Environment { store: Vec::new() }
    }

    /// The position of the last binding of `identifier`, if it is bound.
    fn position(&self, identifier: &String) -> (found: Option<usize>)
        ensures
            match found {
                Some(at) => {
                    &&& at < self.store.len()
                    &&& self.store[at as int].0@ == identifier@
                    &&& forall|i: int|
                        at < i < self.store.len() ==> (#[trigger] self.store[i]).0@ != identifier@
                },
                None => forall|i: int|
                    0 <= i < self.store.len() ==> (#[trigger] self.store[i]).0@ != identifier@,
            },
    {
        let mut index: usize = self.store.len();
        while index > 0
            invariant
                index <= self.store.len(),
                forall|i: int|
                    index <= i < self.store.len() ==> (#[trigger] self.store[i]).0@ != identifier@,
            decreases index,
        {
            index = index - 1;
            if self.store[index].0 == *identifier {
                return Some(index);
            }
        }
        None
    }

    /// The value that the variable `identifier` is bound to, if it is bound.
    pub fn get(&self, identifier: &String) -> (found: Option<&Object>)
        ensures
            match found {
                Some(value) => self@.contains_key(identifier@) && value@ == self@[identifier@],
                None => !self@.contains_key(identifier@),
            },
    {
        match self.position(identifier) {
            Some(at) => {
                proof {
                    lemma_last_binding_wins(bindings_view(&self.store), identifier@, at as int);
                }
                Some(&self.store[at].1)
            },
            None => {
                proof {
                    lemma_unbound_name(bindings_view(&self.store), identifier@);
                }
                None
            },
        }
    }

    /// Binds the variable `identifier` to `object`, whether or not it was bound before.
    pub fn set(&mut self, identifier: String, object: Object)
        ensures
            final(self)@ == old(self)@.insert(identifier@, object@),
    {
        match self.position(&identifier) {
            Some(at) => {
                proof {
                    lemma_rebind_last(
                        bindings_view(&self.store),
                        identifier@,
                        at as int,
                        object@,
                    );
                }
                self.store.set(at, (identifier, object));
                assert(bindings_view(&self.store) =~= bindings_view(&old(self).store).update(
                    at as int,
                    (identifier@, object@),
                ));
            },
            None => {
                proof {
                    lemma_bind_at_end(bindings_view(&self.store), identifier@, object@);
                }
                self.store.push((identifier, object));
                assert(bindings_view(&self.store) =~= bindings_view(&old(self).store).push(
                    (identifier@, object@),
                ));
            },
        }
    }

    /// A duplicate of the whole scope, independent of this one.
    pub fn duplicate(&self) -> (copy: Self)
        ensures
            copy@ == self@,
    {
        self.clone()
    }

    /// The bindings of this scope, in the order in which the names were first bound.
    pub fn store(&self) -> (bindings: &Vec<(String, Object)>)
        ensures
            bindings == &self.store,
    {
        &self.store
    }
}

impl Default for Environment {
    fn default() -> (env: Self)
        ensures
            env@ == Map::<Seq<char>, ValueView>::empty(),
    {
        Environment::new()
    }
}

} // verus!

verus! {

/// A copy of a list of bindings.
pub fn clone_bindings(list: &Vec<(String, Object)>) -> (copy: Vec<(String, Object)>)
    ensures
        bindings_view(&copy) == bindings_view(list),
    decreases list,
{
    let mut copy: Vec<(String, Object)> = Vec::new();
    let mut index: usize = 0;
    while index < list.len()
        invariant
            index <= list.len(),
            copy.len() == index,
            forall|i: int|
                0 <= i < index ==> (#[trigger] copy[i]).0@ == list[i].0@ && copy[i].1@ == list[i].1@,
        decreases list.len() - index,
    {
        let name = list[index].0.clone();
        let value = list[index].1.clone();
        copy.push((name, value));
        index = index + 1;
    }
    assert(bindings_view(&copy) =~= bindings_view(list));
    copy
}

impl Clone for Environment {
    /// A duplicate of the whole scope, independent of this one.
    fn clone(&self) -> (copy: Self)
        ensures
            copy@ == self@,
        decreases self,
    {
        Environment { store: clone_bindings(&self.store) }
    }
}

} // verus!

verus! {

/// The mapping of the bindings before the `count`-th grows by one binding
/// when `count` does.
pub proof fn lemma_next_binding(bindings: Seq<(Seq<char>, ValueView)>, count: int)
    requires
        0 <= count < bindings.len(),
    ensures
        bindings_map(bindings.take(count + 1)) == bindings_map(bindings.take(count)).insert(
            bindings[count].0,
            bindings[count].1,
        ),
{
    assert(bindings.take(count + 1).drop_last() =~= bindings.take(count));
}

impl Environment {
    /// The built-in that `identifier` names, if it names one.
    pub fn get_build_in(&self, identifier: &String) -> (found: Option<Object>)
        ensures
            match build_in_named(identifier@) {
                Some(native) => found matches Some(object) && object@ == ValueView::BuildIn(native),
                None => found is None,
            },
    {
        if *identifier == String::from_str("len") {
            Some(Object::BuildIn(BuildIn::Len(LenFunction)))
        } else if *identifier == String::from_str("input") {
            Some(Object::BuildIn(BuildIn::Input(InputFunction)))
        } else if *identifier == String::from_str("int") {
            Some(Object::BuildIn(BuildIn::CastInt(CastIntFunction)))
        } else if *identifier == String::from_str("print") {
            Some(Object::BuildIn(BuildIn::Print(PrintFunction)))
        } else {
            None
        }
    }

    /// Binds in this scope every variable of `other` to a copy of its value
    /// there, over what this scope held under the same name.
    pub fn overlay(&mut self, other: &Environment)
        ensures
            final(self)@ == old(self)@.union_prefer_right(other@),
    {
        let ghost bindings = bindings_view(&other.store);
        let mut index: usize = 0;
        assert(bindings.take(0) =~= Seq::empty());
        assert(self@ =~= old(self)@.union_prefer_right(bindings_map(bindings.take(0))));
        while index < other.store.len()
            invariant
                index <= other.store.len(),
                bindings == bindings_view(&other.store),
                self@ == old(self)@.union_prefer_right(bindings_map(bindings.take(index as int))),
            decreases other.store.len() - index,
        {
            let name = other.store[index].0.clone();
            let value = other.store[index].1.clone();
            proof {
                lemma_next_binding(bindings, index as int);
                assert(old(self)@.union_prefer_right(
                    bindings_map(bindings.take(index as int)),
                ).insert(name@, value@) =~= old(self)@.union_prefer_right(
                    bindings_map(bindings.take(index as int)).insert(name@, value@),
                ));
            }
            self.set(name, value);
            index = index + 1;
        }
        assert(bindings.take(index as int) =~= bindings);
    }

    /// Binds the parameters to the values, by position and in order.
    pub fn bind(&mut self, parameters: &Vec<Identifier>, values: Vec<Object>)
        requires
            parameters.len() == values.len(),
        ensures
            final(self)@ == bind_parameters(
                old(self)@,
                names_view(parameters@),
                objects_view(values@),
                parameters.len() as nat,
            ),
    {
        let mut values = values;
        let ghost all = objects_view(values@);
        let mut index: usize = parameters.len();
        let mut reversed: Vec<Object> = Vec::new();
        while index > 0
            invariant
                index <= parameters.len(),
                values.len() == index,
                reversed.len() == parameters.len() - index,
                all.len() == parameters.len(),
                forall|i: int| 0 <= i < index ==> (#[trigger] values[i])@ == all[i],
                forall|i: int|
                    0 <= i < reversed.len() ==> (#[trigger] reversed[i])@ == all[parameters.len() - 1 - i],
            decreases index,
        {
            let value = values.pop().unwrap();
            reversed.push(value);
            index = index - 1;
        }
        let mut count: usize = 0;
        while count < parameters.len()
            invariant
                count <= parameters.len(),
                reversed.len() == parameters.len() - count,
                all.len() == parameters.len(),
                forall|i: int|
                    0 <= i < reversed.len() ==> (#[trigger] reversed[i])@ == all[parameters.len() - 1 - i],
                self@ == bind_parameters(old(self)@, names_view(parameters@), all, count as nat),
            decreases parameters.len() - count,
        {
            let value = reversed.pop().unwrap();
            self.set(parameters[count].value.clone(), value);
            count = count + 1;
        }
    }
}

} // verus!

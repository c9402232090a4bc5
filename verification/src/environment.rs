use vstd::prelude::*;

use crate::object::JsValue;

verus! {

/// The global scope of a realm, as far as a realm looks into it: how many bindings
/// the code compiled so far declares.
#[derive(Clone, Copy, Debug, PartialEq, Eq, Structural)]
pub struct Scope {
    pub num_bindings: u32,
}

impl Scope {
    /// Creates a global scope, which declares nothing yet.
    pub fn new_global() -> (scope: Self)
        ensures
            scope.num_bindings == 0,
    {
        Scope { num_bindings: 0 }
    }

    /// Gets the number of bindings that the scope declares.
    pub fn num_bindings(&self) -> (result: u32)
        ensures
            result == self.num_bindings,
    {
        self.num_bindings
    }
}

/// The global declarative environment of a realm: one slot for each binding of the
/// global scope, `None` while the binding is uninitialized.
#[derive(Debug)]
pub struct GlobalEnvironment<P> {
    pub bindings: Vec<Option<JsValue<P>>>,
}

impl<P> View for GlobalEnvironment<P> {
    type V = Seq<Option<JsValue<P>>>;

    open spec fn view(&self) -> Seq<Option<JsValue<P>>> {
        self.bindings@
    }
}

/// The slots `bindings` brought to at least `len` slots: those there were, then
/// uninitialized ones.
pub open spec fn grown<P>(bindings: Seq<Option<JsValue<P>>>, len: nat) -> Seq<
    Option<JsValue<P>>,
> {
    if bindings.len() < len {
        bindings + Seq::new((len - bindings.len()) as nat, |i: int| None)
    } else {
        bindings
    }
}

impl<P> GlobalEnvironment<P> {
    /// Creates an environment without bindings.
    pub fn global() -> (environment: Self)
        ensures
            environment@ == Seq::<Option<JsValue<P>>>::empty(),
    {
        GlobalEnvironment { bindings: Vec::new() }
    }

    /// Adds uninitialized slots until there are at least `len`.
    pub fn grow(&mut self, len: usize)
        ensures
            final(self)@ == grown(old(self)@, len as nat),
    {
        while self.bindings.len() < len
            invariant
                old(self)@.len() <= self@.len(),
                self@.len() <= len || self@ == old(self)@,
                self@ == grown(old(self)@, self@.len()),
            decreases len - self@.len(),
        {
            self.bindings.push(None);
            assert(self@ =~= grown(old(self)@, self@.len()));
        }
        assert(self@ =~= grown(old(self)@, len as nat));
    }
}

} // verus!

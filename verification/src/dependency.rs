//! A dependency: a request that one module, or the entry list, makes for another.

use crate::ident::DependencyId;
use crate::options::Context;
use vstd::prelude::*;

verus! {

/// A reference from a module, or from the entry list, to a requested target.
#[derive(Debug)]
pub struct Dependency {
    pub id: DependencyId,
    /// The request as written where the dependency was found.
    pub request: String,
    /// The context directory that the dependency declares, if it declares one.
    pub context: Option<Context>,
}

pub type BoxDependency = Box<Dependency>;

impl Dependency {
    pub fn new(id: DependencyId, request: String, context: Option<Context>) -> (dependency:
        Dependency)
        ensures
            dependency.id == id,
            dependency.request == request,
            dependency.context == context,
    {
        Dependency { id, request, context }
    }

    pub fn id(&self) -> (id: &DependencyId)
        ensures
            *id == self.id,
    {
        &self.id
    }

    pub fn get_context(&self) -> (context: Option<&Context>)
        ensures
            context matches Some(declared) ==> self.context == Some(*declared),
            context is None <==> self.context is None,
    {
        self.context.as_ref()
    }
}

impl Clone for Dependency {
    fn clone(&self) -> (copy: Dependency)
        ensures
            copy == *self,
    {
        let context = match &self.context {
            Some(declared) => Some(declared.clone()),
            None => None,
        };
        Dependency { id: self.id, request: self.request.clone(), context }
    }
}

/// A copy of each dependency of `dependencies`, in their order.
pub fn clone_dependencies(dependencies: &Vec<BoxDependency>) -> (copy: Vec<BoxDependency>)
    ensures
        copy@ == dependencies@,
{
    let mut copy: Vec<BoxDependency> = Vec::new();
    let mut i: usize = 0;
    while i < dependencies.len()
        invariant
            i <= dependencies.len(),
            copy@ == dependencies@.subrange(0, i as int),
        decreases dependencies.len() - i,
    {
        let one: Dependency = (*dependencies[i]).clone();
        copy.push(Box::new(one));
        assert(dependencies@.subrange(0, i + 1) == dependencies@.subrange(0, i as int).push(
            dependencies@[i as int],
        ));
        i += 1;
    }
    assert(dependencies@.subrange(0, dependencies@.len() as int) == dependencies@);
    copy
}

} // verus!

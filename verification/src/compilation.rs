//! The state of one compilation that the pipeline changes: the module graph and
//! the set of entry modules.

use crate::graph_model::GraphView;
use crate::ident::ModuleIdentifier;
use crate::module_graph::ModuleGraph;
use std::collections::HashSet;
use vstd::prelude::*;
use vstd::set_lib::lemma_map_size;

verus! {

/// A set of module identities, kept in std's hash set by their numbers.
pub struct IdentifierSet {
    items: HashSet<u64>,
}

impl View for IdentifierSet {
    type V = Set<ModuleIdentifier>;

    closed spec fn view(&self) -> Set<ModuleIdentifier> {
        Set::new(|module: ModuleIdentifier| self.items@.contains(module.0))
    }
}

impl IdentifierSet {
    #[verifier::type_invariant]
    spec fn countable(&self) -> bool {
        self.items@.finite()
    }

    /// The empty set.
    pub fn new() -> (set: IdentifierSet)
        ensures
            set@ == Set::<ModuleIdentifier>::empty(),
    {
        let set = IdentifierSet { items: HashSet::new() };
        assert(set@ =~= Set::<ModuleIdentifier>::empty());
        set
    }

    /// Whether `module` is in the set.
    pub fn contains(&self, module: &ModuleIdentifier) -> (found: bool)
        ensures
            found == self@.contains(*module),
    {
        self.items.contains(&module.0)
    }

    /// Puts `module` in the set, and says whether it was new.
    pub fn insert(&mut self, module: ModuleIdentifier) -> (inserted: bool)
        ensures
            final(self)@ == old(self)@.insert(module),
            inserted == !old(self)@.contains(module),
    {
        proof {
            use_type_invariant(&*self);
        }
        let mut items: HashSet<u64> = HashSet::new();
        std::mem::swap(&mut self.items, &mut items);
        let inserted = items.insert(module.0);
        self.items = items;
        assert(self@ =~= old(self)@.insert(module));
        inserted
    }

    /// How many modules are in the set.
    pub fn len(&self) -> (count: usize)
        ensures
            self@.finite(),
            count == self@.len(),
    {
        proof {
            use_type_invariant(self);
            let named = |number: u64| ModuleIdentifier(number);
            assert(self.items@.map(named) =~= self@) by {
                assert forall|module: ModuleIdentifier|
                    self.items@.map(named).contains(module) <==> self@.contains(module) by {
                    if self@.contains(module) {
                        assert(self.items@.contains(module.0) && module == named(module.0));
                    }
                }
            }
            lemma_map_size(self.items@, self@, named);
        }
        self.items.len()
    }
}

/// What the pipeline shares and changes while it makes the module graph.
pub struct Compilation {
    pub module_graph: ModuleGraph,
    pub entry_module_identifiers: IdentifierSet,
}

impl Compilation {
    /// A compilation with an empty graph and no entry.
    pub fn new() -> (compilation: Compilation)
        ensures
            compilation.module_graph@ == GraphView::empty(),
            compilation.entry_module_identifiers@ == Set::<ModuleIdentifier>::empty(),
    {
        Compilation { module_graph: ModuleGraph::new(), entry_module_identifiers: IdentifierSet::new() }
    }
}

} // verus!

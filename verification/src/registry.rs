use vstd::prelude::*;

use crate::descriptor::RuleDescriptor;
use crate::descriptor::RuleDescriptorModel;

verus! {

/// An explicit mapping from stable rule identifiers to rule descriptors,
/// filled by the host framework's setup routine instead of any implicit
/// registration at module load time. Identifiers are unique: registering a
/// second descriptor under an identifier already present is refused.
pub struct RuleRegistry {
    pub entries: Vec<RuleDescriptor>,
}

impl RuleRegistry {
    /// The registered descriptors, in registration order, as models.
    pub open spec fn spec_entries(&self) -> Seq<RuleDescriptorModel> {
        self.entries@.map_values(|d: RuleDescriptor| d@)
    }

    /// Whether some registered descriptor carries this rule identifier.
    pub open spec fn contains_rule_id(&self, id: Seq<char>) -> bool {
        exists|i: int|
            0 <= i < self.spec_entries().len() && #[trigger] self.spec_entries()[i].rule_id == id
    }

    /// Invariant: no two registered descriptors share a rule identifier.
    pub open spec fn well_formed(&self) -> bool {
        forall|i: int, j: int|
            0 <= i < j < self.spec_entries().len() ==> #[trigger] self.spec_entries()[i].rule_id
                != #[trigger] self.spec_entries()[j].rule_id
    }

    /// An empty registry, trivially well formed.
    pub fn new() -> (r: Self)
        ensures
            r.well_formed(),
            r.spec_entries().len() == 0,
    {
        RuleRegistry { entries: Vec::new() }
    }

    /// How many rules are registered.
    pub fn len(&self) -> (n: usize)
        ensures
            n == self.spec_entries().len(),
    {
        self.entries.len()
    }

    /// The position of the descriptor registered under this identifier, if
    /// any is.
    fn find_index(&self, id: &String) -> (r: Option<usize>)
        ensures
            match r {
                Option::Some(i) => i < self.spec_entries().len() && self.spec_entries()[
                    i as int
                ].rule_id == id@,
                Option::None => !self.contains_rule_id(id@),
            },
    {
        let n = self.entries.len();
        let mut i: usize = 0;
        while i < n
            invariant
                n == self.spec_entries().len(),
                i <= n,
                forall|k: int| 0 <= k < i ==> #[trigger] self.spec_entries()[k].rule_id != id@,
            decreases n - i,
        {
            if self.entries[i].rule_id == *id {
                return Option::Some(i);
            }
            i = i + 1;
        }
        Option::None
    }

    /// Register a descriptor under its rule identifier. Succeeds, appending
    /// the descriptor, exactly when no descriptor with the same identifier
    /// was registered before; otherwise the registry is unchanged.
    pub fn register(&mut self, descriptor: RuleDescriptor) -> (added: bool)
        requires
            old(self).well_formed(),
        ensures
            final(self).well_formed(),
            added == !old(self).contains_rule_id(descriptor@.rule_id),
            added ==> final(self).spec_entries() == old(self).spec_entries().push(descriptor@),
            !added ==> final(self).spec_entries() == old(self).spec_entries(),
    {
        match self.find_index(&descriptor.rule_id) {
            Option::Some(_) => false,
            Option::None => {
                self.entries.push(descriptor);
                proof {
                    assert(final(self).spec_entries() =~= old(self).spec_entries().push(descriptor@));
                }
                true
            },
        }
    }

    /// Look up the descriptor registered under this identifier. Returns one
    /// exactly when the identifier was registered, and then a registered
    /// descriptor carrying that identifier.
    pub fn lookup(&self, id: &String) -> (r: Option<&RuleDescriptor>)
        ensures
            r is Some <==> self.contains_rule_id(id@),
            r matches Some(d) ==> d@.rule_id == id@,
            r matches Some(d) ==> exists|i: int|
                0 <= i < self.spec_entries().len() && #[trigger] self.spec_entries()[i] == d@,
    {
        match self.find_index(id) {
            Option::Some(i) => Option::Some(&self.entries[i]),
            Option::None => Option::None,
        }
    }
}

} // verus!

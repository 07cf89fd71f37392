//! Access-policy construction.
//!
//! At application-configuration time, each component's declared metadata is
//! collected into that component's allow-list of database labels. The
//! resulting mapping is total over the application's components (a component
//! that declares nothing gets the empty set, so it is denied everything) and
//! is never changed afterwards.

use vstd::hash_map::StringHashMap;
use vstd::hash_set::StringHashSet;
use vstd::prelude::*;

verus! {

/// One component of the application, as the host describes it: its identity
/// and the labels its metadata declares under the allowed-databases key.
pub struct Component {
    pub id: String,
    /// The declared database labels; `None` when the component carries no
    /// such metadata. Duplicates are permitted and order is irrelevant.
    pub allowed_databases: Option<Vec<String>>,
}

/// The set of labels named by a list of declared labels.
pub open spec fn spec_label_set(labels: Seq<String>) -> Set<Seq<char>>
    decreases labels.len(),
{
    if labels.len() == 0 {
        Set::empty()
    } else {
        spec_label_set(labels.drop_last()).insert(labels.last()@)
    }
}

/// The allow-list a component's metadata declares: the set of its declared
/// labels, or the empty set when it declares none (default-deny).
pub open spec fn spec_allowed(c: Component) -> Set<Seq<char>> {
    match c.allowed_databases {
        Some(labels) => spec_label_set(labels@),
        None => Set::empty(),
    }
}

/// The access policy over a list of components: each component's identity
/// maps to its allow-list. A repeated identity keeps the later entry.
pub open spec fn spec_policy(cs: Seq<Component>) -> Map<Seq<char>, Set<Seq<char>>>
    decreases cs.len(),
{
    if cs.len() == 0 {
        Map::empty()
    } else {
        spec_policy(cs.drop_last()).insert(cs.last().id@, spec_allowed(cs.last()))
    }
}

/// The mathematical reading of a built policy: component identity to the set
/// of labels its stored allow-list holds.
pub open spec fn policy_view(m: StringHashMap<StringHashSet>) -> Map<Seq<char>, Set<Seq<char>>> {
    m@.map_values(|s: StringHashSet| s@)
}

/// Collect a component's declared labels into an allow-list set.
pub fn build_label_set(labels: &Vec<String>) -> (r: StringHashSet)
    ensures
        r@ == spec_label_set(labels@),
{
    let mut set = StringHashSet::new();
    let mut i: usize = 0;
    while i < labels.len()
        invariant
            i <= labels.len(),
            set@ == spec_label_set(labels@.take(i as int)),
        decreases labels.len() - i,
    {
        let label = &labels[i];
        set.insert(label.clone());
        proof {
            assert(labels@.take(i as int + 1).drop_last() =~= labels@.take(i as int));
            assert(labels@.take(i as int + 1).last() == labels@[i as int]);
        }
        i += 1;
    }
    proof {
        assert(labels@.take(labels@.len() as int) =~= labels@);
    }
    set
}

/// Build the access policy for an application: every component gets an
/// entry, holding exactly the labels its metadata declares.
pub fn build_policy(components: &Vec<Component>) -> (r: StringHashMap<StringHashSet>)
    ensures
        policy_view(r) == spec_policy(components@),
{
    let mut policy = StringHashMap::<StringHashSet>::new();
    proof {
        assert(policy_view(policy) =~= spec_policy(components@.take(0)));
    }
    let mut i: usize = 0;
    while i < components.len()
        invariant
            i <= components.len(),
            policy_view(policy) == spec_policy(components@.take(i as int)),
        decreases components.len() - i,
    {
        let component = &components[i];
        let allowed = match &component.allowed_databases {
            Some(labels) => build_label_set(labels),
            None => StringHashSet::new(),
        };
        let ghost before = policy;
        policy.insert(component.id.clone(), allowed);
        proof {
            assert(policy_view(policy) =~= policy_view(before).insert(
                component.id@,
                allowed@,
            ));
            assert(components@.take(i as int + 1).drop_last() =~= components@.take(i as int));
        }
        i += 1;
    }
    proof {
        assert(components@.take(components@.len() as int) =~= components@);
    }
    policy
}

/// Building the access policy twice from identical component metadata yields
/// identical allow-sets.
pub proof fn lemma_policy_idempotent(
    a: StringHashMap<StringHashSet>,
    b: StringHashMap<StringHashSet>,
    cs: Seq<Component>,
)
    requires
        policy_view(a) == spec_policy(cs),
        policy_view(b) == spec_policy(cs),
    ensures
        policy_view(a) == policy_view(b),
{
}

} // verus!

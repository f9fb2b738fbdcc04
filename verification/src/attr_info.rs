//! The roles that annotations give to functions.
use vstd::prelude::*;

verus! {

/// What a function means to taint tracking.
#[derive(Clone, Copy, Debug, PartialEq, Eq, Structural)]
pub enum CallRole {
    /// Its result is tainted.
    Source,
    /// It must not receive a tainted argument.
    Sink,
    /// Its result is clean, whatever it received.
    Sanitizer,
}

/// A function's name with its role.
#[derive(Debug)]
struct Entry {
    name: String,
    role: CallRole,
}

/// The catalog of annotated functions, by name.
///
/// Its view is the map from each annotated name to its role. A function
/// that is not in the map has no role.
#[derive(Debug)]
pub struct AttrInfo {
    entries: Vec<Entry>,
}

/// The map that a list of entries stands for: a later entry replaces an
/// earlier one of the same name.
spec fn roles_of(entries: Seq<Entry>) -> Map<Seq<char>, CallRole>
    decreases entries.len(),
{
    if entries.len() == 0 {
        Map::empty()
    } else {
        roles_of(entries.drop_last()).insert(entries.last().name@, entries.last().role)
    }
}

impl View for AttrInfo {
    type V = Map<Seq<char>, CallRole>;

    closed spec fn view(&self) -> Map<Seq<char>, CallRole> {
        roles_of(self.entries@)
    }
}

/// The role that `roles` gives to `name`, if it gives one.
pub open spec fn role_of(roles: Map<Seq<char>, CallRole>, name: Seq<char>) -> Option<CallRole> {
    if roles.contains_key(name) {
        Some(roles[name])
    } else {
        None
    }
}

impl AttrInfo {
    /// The catalog in which no function has a role.
    pub fn new() -> (info: Self)
        ensures
            info@ == Map::<Seq<char>, CallRole>::empty(),
    {
        AttrInfo { entries: Vec::new() }
    }

    /// Gives `name` the role `role`, in place of any role it had.
    pub fn insert(&mut self, name: String, role: CallRole)
        ensures
            final(self)@ == old(self)@.insert(name@, role),
    {
        self.entries.push(Entry { name, role });
        assert(self.entries@.drop_last() =~= old(self).entries@);
    }

    /// The role of the function called `name`, if it has one.
    pub fn lookup(&self, name: &String) -> (role: Option<CallRole>)
        ensures
            role == role_of(self@, name@),
    {
        let mut i: usize = self.entries.len();
        assert(self.entries@.take(i as int) =~= self.entries@);
        while i > 0
            invariant
                i <= self.entries@.len(),
                role_of(self@, name@) == role_of(roles_of(self.entries@.take(i as int)), name@),
            decreases i,
        {
            proof {
                assert(self.entries@.take(i as int).drop_last() =~= self.entries@.take(i - 1));
            }
            i = i - 1;
            if self.entries[i].name == *name {
                return Some(self.entries[i].role);
            }
        }
        None
    }
}

} // verus!

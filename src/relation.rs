//! The relationship lists that both record shapes carry.
use vstd::prelude::*;

verus! {

/// A list field naming other packages, in the order the lists are rendered.
#[derive(Clone, Copy, Debug, PartialEq, Eq)]
pub enum Relation {
    PreDepends,
    Depends,
    Recommends,
    Suggests,
    Breaks,
    Conflicts,
    Provides,
    Replaces,
    Enchances,
}

/// The rank of a list in the rendered layout.
pub open spec fn relation_index(r: Relation) -> int {
    match r {
        Relation::PreDepends => 0,
        Relation::Depends => 1,
        Relation::Recommends => 2,
        Relation::Suggests => 3,
        Relation::Breaks => 4,
        Relation::Conflicts => 5,
        Relation::Provides => 6,
        Relation::Replaces => 7,
        Relation::Enchances => 8,
    }
}

} // verus!

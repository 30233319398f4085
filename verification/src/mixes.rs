//! The mix table: a saved query that builds a play list.

use vstd::prelude::*;

verus! {

/// A row of the mix table.
#[derive(Clone, Debug, PartialEq, Eq)]
pub struct Model {
    pub id: i32,
    pub name: String,
    pub group: String,
    pub scriptlet_mode: bool,
    pub mode: i32,
    pub locked: bool,
    pub created_at: String,
    pub updated_at: String,
}

/// The relations of the mix table: a mix has many mix queries.
#[derive(Clone, Copy, Debug, PartialEq, Eq, Structural)]
pub enum Relation {
    MixQueries,
}

/// The tables that the mix table is related to.
#[derive(Clone, Copy, Debug, PartialEq, Eq, Structural)]
pub enum RelatedEntity {
    MixQueries,
}

/// The relation through which a mix reaches a related table.
pub fn relation_to(entity: RelatedEntity) -> (r: Relation)
    ensures
        r == Relation::MixQueries,
{
    match entity {
        RelatedEntity::MixQueries => Relation::MixQueries,
    }
}

} // verus!

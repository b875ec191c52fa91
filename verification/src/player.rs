use vstd::prelude::*;

verus! {

/// The minimal player record as the database carries it. The ranking and
/// scoring subsystem around it works on floating-point scores and lives with
/// the store, outside this crate; the record itself is kept here so callers
/// of the authentication core can speak about players.
#[derive(Debug, Clone, Hash, PartialEq, Eq)]
pub struct DatabasePlayer {
    pub id: i32,
    pub name: String,
    pub banned: bool,
}

} // verus!

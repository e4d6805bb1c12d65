//! The database schema's version and the migrations a database still needs.

use vstd::prelude::*;

verus! {

/// Current schema version; bumped with each added migration.
pub const SCHEMA_VERSION: u32 = 2;

/// The migrations, in order, that a database at `version` still needs:
/// migration `n` is needed while the version is below `n`.
pub open spec fn pending_migrations_spec(version: u32) -> Seq<u32> {
    (if version < 1 {
        seq![1u32]
    } else {
        Seq::<u32>::empty()
    }) + (if version < 2 {
        seq![2u32]
    } else {
        Seq::<u32>::empty()
    })
}

/// The migrations that a database at schema `version` still needs, in order.
pub fn pending_migrations(version: u32) -> (r: Vec<u32>)
    ensures
        r@ == pending_migrations_spec(version),
{
    let mut r: Vec<u32> = Vec::new();
    if version < 1 {
        r.push(1);
    }
    if version < 2 {
        r.push(2);
    }
    proof {
        assert(r@ =~= pending_migrations_spec(version));
    }
    r
}

/// A database at the current schema version needs no migration, and no
/// migration that a database still needs goes past the current version.
pub proof fn lemma_migrations_end_at_current_version(version: u32)
    ensures
        pending_migrations_spec(SCHEMA_VERSION).len() == 0,
        forall|k: int|
            0 <= k < pending_migrations_spec(version).len() ==> version
                < #[trigger] pending_migrations_spec(version)[k] <= SCHEMA_VERSION,
{
    assert(pending_migrations_spec(SCHEMA_VERSION) =~= Seq::<u32>::empty());
}

} // verus!

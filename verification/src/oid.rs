//! Identifier assignment: one counter per fetch, never shared between fetches.

use vstd::prelude::*;

verus! {

/// Identifier of the `pg_catalog` namespace.
pub const PG_CATALOG_NAMESPACE_OID: i32 = 11;

/// Identifier of the `information_schema` namespace.
pub const INFORMATION_SCHEMA_NAMESPACE_OID: i32 = 12;

/// Identifier of the `public` namespace.
pub const PUBLIC_NAMESPACE_OID: i32 = 2200;

/// First identifier of the numbering space that schemas and tables share.
pub const FIRST_RELATION_OID: i32 = 10000;

/// First identifier of the numbering space of databases.
pub const FIRST_DATABASE_OID: i32 = 16384;

/// A counter that hands out identifiers in increasing order.
pub struct OidAssigner {
    next: i32,
}

impl View for OidAssigner {
    type V = int;

    /// The identifier that the next call of `next` returns.
    closed spec fn view(&self) -> int {
        self.next as int
    }
}

impl OidAssigner {
    /// A counter for the space that schemas and tables share.
    pub fn for_relations() -> (assigner: OidAssigner)
        ensures
            assigner@ == FIRST_RELATION_OID,
    {
        OidAssigner { next: FIRST_RELATION_OID }
    }

    /// A counter for the space of databases.
    pub fn for_databases() -> (assigner: OidAssigner)
        ensures
            assigner@ == FIRST_DATABASE_OID,
    {
        OidAssigner { next: FIRST_DATABASE_OID }
    }

    /// How many identifiers the counter can still hand out.
    pub fn remaining(&self) -> (left: u32)
        ensures
            left == i32::MAX - self@,
            self@ <= i32::MAX,
    {
        (i32::MAX as i64 - self.next as i64) as u32
    }

    /// The identifier that the next call of `next` would hand out.
    pub fn peek(&self) -> (oid: i32)
        ensures
            oid == self@,
    {
        self.next
    }

    /// Hands out the next identifier.
    pub fn next(&mut self) -> (oid: i32)
        requires
            old(self)@ < i32::MAX,
        ensures
            oid == old(self)@,
            final(self)@ == old(self)@ + 1,
    {
        let oid = self.next;
        self.next = self.next + 1;
        oid
    }

    /// Hands out the first of `count` consecutive identifiers and skips the rest.
    pub fn reserve(&mut self, count: u32) -> (first: i32)
        requires
            old(self)@ + count <= i32::MAX,
        ensures
            first == old(self)@,
            final(self)@ == old(self)@ + count,
    {
        let first = self.next;
        self.next = (self.next as i64 + count as i64) as i32;
        first
    }
}

} // verus!

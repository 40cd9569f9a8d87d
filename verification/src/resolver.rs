//! The type resolver: the external collaborator that maps a database type
//! identifier, together with a position context (argument or return), to a
//! base type expression of the target language.
//!
//! The synthesizer consumes a resolver through the [`TypeResolver`] trait, so
//! that a substitute resolver with fixed mappings or forced failures can be
//! supplied deterministically. [`MapResolver`] is a table-backed resolver.

use vstd::prelude::*;
use crate::types::{TypeId, TypeExpr};

verus! {

/// A capability that resolves a database type identifier into a base type
/// expression of the target language, or reports that the identifier has no
/// known mapping. Resolution may differ between argument position and return
/// position for certain polymorphic types, so the position is part of the
/// question.
pub trait TypeResolver {
    /// The resolver's mapping: the base type expression for `id` at the given
    /// position, or `None` when the identifier cannot be mapped.
    spec fn base_type(&self, id: TypeId, return_position: bool) -> Option<TypeExpr>;

    /// Resolve `id` at the given position, answering exactly the mapping.
    fn resolve(&self, id: TypeId, return_position: bool) -> (r: Option<TypeExpr>)
        ensures
            r == self.base_type(id, return_position),
    ;
}

/// One row of a table-backed resolver: an identifier together with its base
/// type expression in argument position and in return position.
#[derive(Clone, Debug, PartialEq, Eq)]
pub struct ResolverEntry {
    pub id: TypeId,
    pub argument_type: TypeExpr,
    pub return_type: TypeExpr,
}

/// A resolver backed by a table of entries; the first entry with a matching
/// identifier answers, and an identifier with no entry is unmappable.
#[derive(Clone, Debug, PartialEq, Eq)]
pub struct MapResolver {
    pub entries: Vec<ResolverEntry>,
}

/// The first entry of `entries` whose identifier is `id`, if any.
pub open spec fn first_entry_for(entries: Seq<ResolverEntry>, id: TypeId) -> Option<ResolverEntry>
    decreases entries.len(),
{
    if entries.len() == 0 {
        None
    } else if entries[0].id == id {
        Some(entries[0])
    } else {
        first_entry_for(entries.drop_first(), id)
    }
}

/// If every entry before position `i` misses `id` and the entry at `i` hits,
/// then the entry at `i` is the first entry for `id`.
proof fn lemma_first_entry_hit(entries: Seq<ResolverEntry>, id: TypeId, i: int)
    requires
        0 <= i < entries.len(),
        entries[i].id == id,
        forall|k: int| 0 <= k < i ==> entries[k].id != id,
    ensures
        first_entry_for(entries, id) == Some(entries[i]),
    decreases entries.len(),
{
    if i > 0 {
        lemma_first_entry_hit(entries.drop_first(), id, i - 1);
    }
}

/// If every entry misses `id`, there is no first entry for `id`.
proof fn lemma_first_entry_miss(entries: Seq<ResolverEntry>, id: TypeId)
    requires
        forall|k: int| 0 <= k < entries.len() ==> entries[k].id != id,
    ensures
        first_entry_for(entries, id) is None,
    decreases entries.len(),
{
    if entries.len() > 0 {
        lemma_first_entry_miss(entries.drop_first(), id);
    }
}

impl TypeResolver for MapResolver {
    open spec fn base_type(&self, id: TypeId, return_position: bool) -> Option<TypeExpr> {
        match first_entry_for(self.entries@, id) {
            Some(entry) => Some(
                if return_position {
                    entry.return_type
                } else {
                    entry.argument_type
                },
            ),
            None => None,
        }
    }

    fn resolve(&self, id: TypeId, return_position: bool) -> (r: Option<TypeExpr>) {
        let n = self.entries.len();
        let mut i: usize = 0;
        while i < n
            invariant
                i <= n,
                n == self.entries@.len(),
                forall|k: int| 0 <= k < i ==> self.entries@[k].id != id,
            decreases n - i,
        {
            if self.entries[i].id == id {
                proof {
                    lemma_first_entry_hit(self.entries@, id, i as int);
                }
                let entry = &self.entries[i];
                if return_position {
                    return Some(entry.return_type.deep_clone());
                } else {
                    return Some(entry.argument_type.deep_clone());
                }
            }
            i += 1;
        }
        proof {
            lemma_first_entry_miss(self.entries@, id);
        }
        None
    }
}

} // verus!

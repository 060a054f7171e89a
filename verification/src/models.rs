//! The stored record and the query options of a listing.

use vstd::prelude::*;

verus! {

/// The largest request body, in bytes, that a create request may carry.
pub const BODY_LIMIT: u64 = 1024 * 16;

/// One todo item as it is stored and sent to clients.
#[derive(Debug)]
pub struct Todo {
    pub id: u64,
    pub text: String,
    pub completed: bool,
}

impl Clone for Todo {
    fn clone(&self) -> (res: Self)
        ensures
            res == *self,
    {
        Todo { id: self.id, text: self.text.clone(), completed: self.completed }
    }
}

/// The query of a listing: how many todos to skip and how many to return at most.
#[derive(Debug)]
pub struct TodoListOptions {
    pub offset: Option<usize>,
    pub limit: Option<usize>,
}

impl TodoListOptions {
    /// How many todos a listing skips: the given offset, or none.
    pub open spec fn offset_or_default(self) -> nat {
        match self.offset {
            Some(o) => o as nat,
            None => 0,
        }
    }

    /// How many todos a listing returns at most: the given limit, or no bound
    /// short of the largest `usize`.
    pub open spec fn limit_or_default(self) -> nat {
        match self.limit {
            Some(l) => l as nat,
            None => usize::MAX as nat,
        }
    }
}

/// Whether some todo of `s` carries the id `id`.
pub open spec fn has_id(s: Seq<Todo>, id: u64) -> bool {
    exists|i: int| 0 <= i < s.len() && #[trigger] s[i].id == id
}

/// No two todos of `s` carry the same id.
pub open spec fn ids_unique(s: Seq<Todo>) -> bool {
    forall|i: int, j: int| 0 <= i < s.len() && 0 <= j < s.len() && i != j ==> #[trigger] s[i].id != #[trigger] s[j].id
}

/// The part of `s` that is left after skipping `offset` items and then keeping
/// at most `limit` of the rest.
pub open spec fn page<A>(s: Seq<A>, offset: nat, limit: nat) -> Seq<A> {
    let start: nat = if offset < s.len() { offset } else { s.len() };
    let end: nat = if limit < s.len() - start { start + limit } else { s.len() };
    s.subrange(start as int, end as int)
}

} // verus!

//! What the service does with a listing request and with a create request.

use vstd::prelude::*;

use crate::models::{has_id, ids_unique, page, Todo, TodoListOptions};

verus! {

/// The outcome of a create request.
#[derive(Debug, PartialEq, Eq, Structural, Clone, Copy)]
pub enum CreateStatus {
    /// The todo was stored.
    Created,
    /// A todo with the same id was already stored; nothing changed.
    BadRequest,
}

impl CreateStatus {
    /// The HTTP status code that answers the request.
    pub fn status_code(&self) -> (code: u16)
        ensures
            *self == CreateStatus::Created ==> code == 201,
            *self == CreateStatus::BadRequest ==> code == 400,
    {
        match self {
            CreateStatus::Created => 201,
            CreateStatus::BadRequest => 400,
        }
    }
}

/// The store after a create request on `db` for `req`, and the answer.
pub open spec fn spec_create(db: Seq<Todo>, req: Todo) -> (Seq<Todo>, CreateStatus) {
    if has_id(db, req.id) {
        (db, CreateStatus::BadRequest)
    } else {
        (db.push(req), CreateStatus::Created)
    }
}

/// The todos of `db` that a listing with `opts` returns, in stored order:
/// `offset` of them (none by default) are skipped, then at most `limit`
/// (no bound by default) are returned.
pub fn todos_list(db: &Vec<Todo>, opts: &TodoListOptions) -> (res: Vec<Todo>)
    ensures
        res@ == page(db@, opts.offset_or_default(), opts.limit_or_default()),
        ({
            let start: int = match opts.offset {
                Some(o) => if (o as int) < db@.len() { o as int } else { db@.len() as int },
                None => 0,
            };
            &&& opts.limit is None ==> res@.len() == db@.len() - start
            &&& opts.limit matches Some(l) ==> res@.len() == (if (l as int) < db@.len() - start {
                l as int
            } else {
                db@.len() - start
            })
            &&& forall|i: int| 0 <= i < res@.len() ==> #[trigger] res@[i] == db@[start + i]
        }),
{
    let len = db.len();
    let offset: usize = match opts.offset {
        Some(o) => o,
        None => 0,
    };
    let limit: usize = match opts.limit {
        Some(l) => l,
        None => usize::MAX,
    };
    let start: usize = if offset < len { offset } else { len };
    let end: usize = if limit < len - start { start + limit } else { len };
    let mut res: Vec<Todo> = Vec::new();
    let mut i: usize = start;
    while i < end
        invariant
            start <= i <= end <= len,
            len == db@.len(),
            res@ == db@.subrange(start as int, i as int),
        decreases end - i,
    {
        res.push(db[i].clone());
        i = i + 1;
    }
    res
}

/// Stores `req` in `db` unless a stored todo already carries its id.
/// Answers `Created` when it stored it (at the end), `BadRequest` when it
/// left `db` as it was.
pub fn todos_create(db: &mut Vec<Todo>, req: Todo) -> (status: CreateStatus)
    ensures
        (final(db)@, status) == spec_create(old(db)@, req),
        status == CreateStatus::Created <==> !has_id(old(db)@, req.id),
        ids_unique(old(db)@) ==> ids_unique(final(db)@),
        status == CreateStatus::Created ==> final(db)@ == old(db)@.push(req),
        status == CreateStatus::BadRequest ==> final(db)@ == old(db)@,
        status == CreateStatus::Created <==> (forall|i: int|
            0 <= i < old(db)@.len() ==> #[trigger] old(db)@[i].id != req.id),
{
    let len = db.len();
    let mut i: usize = 0;
    while i < len
        invariant
            i <= len,
            len == db@.len(),
            forall|j: int| 0 <= j < i ==> db@[j].id != req.id,
        decreases len - i,
    {
        if db[i].id == req.id {
            return CreateStatus::BadRequest;
        }
        i = i + 1;
    }
    db.push(req);
    CreateStatus::Created
}

} // verus!

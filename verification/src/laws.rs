//! Properties of the store that span several requests.

use vstd::prelude::*;

use crate::handles::{spec_create, CreateStatus};
use crate::models::{has_id, ids_unique, page, Todo, TodoListOptions};

verus! {

/// Starting from an empty store, no sequence of create requests ever leaves
/// two stored todos with the same id: every create request keeps the ids of a
/// store distinct.
pub proof fn lemma_create_keeps_ids_unique(db: Seq<Todo>, req: Todo)
    requires
        ids_unique(db),
    ensures
        ids_unique(spec_create(db, req).0),
{
}

/// The empty store holds no two todos with the same id.
pub proof fn lemma_empty_store_ids_unique()
    ensures
        ids_unique(Seq::<Todo>::empty()),
{
}

/// Once a todo is stored, any later create request with the same id is
/// answered `BadRequest` and leaves the store as it is.
pub proof fn lemma_second_create_with_same_id_refused(db: Seq<Todo>, first: Todo, second: Todo)
    requires
        first.id == second.id,
    ensures
        spec_create(spec_create(db, first).0, second) == (spec_create(db, first).0, CreateStatus::BadRequest),
{
    let db1 = spec_create(db, first).0;
    if !has_id(db, first.id) {
        assert(db1[db.len() as int].id == second.id);
    }
}

/// A listing without options returns the whole store, in stored order.
pub proof fn lemma_default_listing_is_whole_store<A>(s: Seq<A>)
    requires
        s.len() <= usize::MAX,
    ensures
        page(s, 0, usize::MAX as nat) == s,
{
    assert(page(s, 0, usize::MAX as nat) =~= s);
}

/// What a create request stores is what a listing then gives back: the new
/// todo comes last in the store, a listing without options returns it last,
/// and a listing that skips the todos stored before it returns it alone.
pub proof fn lemma_created_todo_is_listed(db: Seq<Todo>, req: Todo)
    requires
        spec_create(db, req).1 == CreateStatus::Created,
        db.len() < usize::MAX,
    ensures
        page(spec_create(db, req).0, 0, usize::MAX as nat).last() == req,
        page(spec_create(db, req).0, db.len(), 1) == seq![req],
{
    let db1 = spec_create(db, req).0;
    lemma_default_listing_is_whole_store(db1);
    assert(page(db1, db.len(), 1) =~= seq![req]);
}

/// A listing returns `min(limit, len - offset)` todos, none when the offset
/// is past the end, and each is the stored todo `offset` places further on.
pub proof fn lemma_page_contents<A>(s: Seq<A>, offset: nat, limit: nat)
    ensures
        offset >= s.len() ==> page(s, offset, limit).len() == 0,
        offset < s.len() && limit <= s.len() - offset ==> page(s, offset, limit).len() == limit,
        offset < s.len() && limit > s.len() - offset ==> page(s, offset, limit).len() == s.len() - offset,
        forall|i: int| 0 <= i < page(s, offset, limit).len() ==> #[trigger] page(s, offset, limit)[i] == s[offset + i],
{
}

/// Two listings where the second starts where the first stops return, one
/// after the other, what one listing over both ranges returns.
pub proof fn lemma_consecutive_pages_concatenate<A>(s: Seq<A>, offset: nat, first: nat, second: nat)
    ensures
        page(s, offset, first) + page(s, offset + first, second) == page(s, offset, first + second),
{
    assert(page(s, offset, first) + page(s, offset + first, second) =~= page(s, offset, first + second));
}

/// A listing never returns more todos than its limit nor more than the store holds.
pub proof fn lemma_page_bounded<A>(s: Seq<A>, offset: nat, limit: nat)
    ensures
        page(s, offset, limit).len() <= limit,
        page(s, offset, limit).len() <= s.len(),
{
}


/// A listing whose options give no limit returns every stored todo from the
/// offset on (all of them when no offset is given either), in stored order.
pub proof fn lemma_listing_without_limit_returns_rest(s: Seq<Todo>, opts: TodoListOptions)
    requires
        opts.limit is None,
        s.len() <= usize::MAX,
    ensures
        opts.offset is None ==> page(s, opts.offset_or_default(), opts.limit_or_default()) == s,
        opts.offset matches Some(o) ==> page(s, opts.offset_or_default(), opts.limit_or_default())
            == (if (o as int) < s.len() { s.skip(o as int) } else { Seq::<Todo>::empty() }),
{
    let p = page(s, opts.offset_or_default(), opts.limit_or_default());
    if opts.offset is None {
        assert(p =~= s);
    } else {
        let o = opts.offset->0;
        if (o as int) < s.len() {
            assert(p =~= s.skip(o as int));
        } else {
            assert(p =~= Seq::<Todo>::empty());
        }
    }
}

/// A limit given in the options is honoured as given: the listing returns
/// `min(l, what is left after the offset)` todos, the stored ones that follow
/// the offset, in order.
pub proof fn lemma_listing_honours_given_limit(s: Seq<Todo>, opts: TodoListOptions, l: usize)
    requires
        opts.limit == Some(l),
    ensures
        ({
            let start: int = match opts.offset {
                Some(o) => if (o as int) < s.len() { o as int } else { s.len() as int },
                None => 0,
            };
            let p = page(s, opts.offset_or_default(), opts.limit_or_default());
            &&& p.len() == (if (l as int) < s.len() - start { l as int } else { s.len() - start })
            &&& forall|i: int| 0 <= i < p.len() ==> #[trigger] p[i] == s[start + i]
        }),
{
}

/// A create request that is answered `Created` appends the request to the
/// store and leaves every earlier todo as it was; one answered `BadRequest`
/// changes nothing; the answer is `Created` exactly when no stored todo has
/// the request's id.
pub proof fn lemma_create_appends_or_refuses(db: Seq<Todo>, req: Todo)
    ensures
        spec_create(db, req).1 == CreateStatus::Created ==> {
            &&& spec_create(db, req).0.len() == db.len() + 1
            &&& spec_create(db, req).0[db.len() as int] == req
            &&& forall|i: int| 0 <= i < db.len() ==> #[trigger] spec_create(db, req).0[i] == db[i]
        },
        spec_create(db, req).1 == CreateStatus::BadRequest ==> spec_create(db, req).0 == db,
        spec_create(db, req).1 == CreateStatus::Created <==> (forall|i: int|
            0 <= i < db.len() ==> #[trigger] db[i].id != req.id),
{
    if spec_create(db, req).1 == CreateStatus::BadRequest {
        let i = choose|i: int| 0 <= i < db.len() && #[trigger] db[i].id == req.id;
        assert(db[i].id == req.id);
    }
}

} // verus!

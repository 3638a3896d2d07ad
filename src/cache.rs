use vstd::prelude::*;
use crate::auth::refresh_forced;
use crate::flow::{
    generate_for, next, respond, start, ActionView, EventView, ExchangeView, RequestView, WriteMode,
    EMPTY_RESULT_MESSAGE,
};
use crate::prompt::{lemma_schema_in_prompt, user_prompt};
use crate::sanitize::sanitized;
use crate::text::is_slice_of;

verus! {

/// The schema store: at most one schema per (pattern, method) key.
pub type SchemaMap = Map<(Seq<char>, Seq<char>), Seq<char>>;

/// The store key of a request: its path and method, taken literally.
pub open spec fn key_of(req: RequestView) -> (Seq<char>, Seq<char>) {
    (req.path, req.method)
}

/// What a lookup of `key` reports.
pub open spec fn lookup(store: SchemaMap, key: (Seq<char>, Seq<char>)) -> Option<Seq<char>> {
    if store.contains_key(key) {
        Some(store[key])
    } else {
        None
    }
}

/// The store after a successful write.
pub open spec fn apply_write(
    store: SchemaMap,
    key: (Seq<char>, Seq<char>),
    mode: WriteMode,
    schema: Seq<char>,
) -> SchemaMap {
    match mode {
        WriteMode::Replace => store.insert(key, schema),
        WriteMode::IfAbsent => if store.contains_key(key) {
            store
        } else {
            store.insert(key, schema)
        },
    }
}

/// The store after an action of a request for `key`: only a write changes it.
pub open spec fn store_after(store: SchemaMap, key: (Seq<char>, Seq<char>), a: ActionView) -> SchemaMap {
    match a {
        ActionView::Store { mode, schema } => apply_write(store, key, mode, schema),
        _ => store,
    }
}

/// The state and action once the lookup of a request has run against `store`
/// (a forced refresh has none).
pub open spec fn after_lookup(store: SchemaMap, req: RequestView, secret: Option<Seq<char>>) -> (
    ExchangeView,
    ActionView,
) {
    let (e0, a0) = start(req, secret);
    match a0 {
        ActionView::Lookup => next(e0, EventView::Found(lookup(store, key_of(req)))),
        _ => (e0, a0),
    }
}

/// A whole request served alone against `store`, every store operation
/// succeeding, the model answering `generated` (`None`: no text). Gives the
/// store afterwards and the final action.
pub open spec fn serve(
    store: SchemaMap,
    req: RequestView,
    secret: Option<Seq<char>>,
    generated: Option<Seq<char>>,
) -> (SchemaMap, ActionView) {
    let (e1, _a1) = after_lookup(store, req, secret);
    let (e2, a2) = next(e1, EventView::Generated(generated));
    match a2 {
        ActionView::Store { mode: _, schema: _ } => (
            store_after(store, key_of(req), a2),
            next(e2, EventView::Stored).1,
        ),
        _ => (store, a2),
    }
}

/// A request for a key that the store does not hold, without a forced
/// refresh and with generated text, leaves exactly one record for the key,
/// holding the sanitised text, and answers 200 with that text.
pub proof fn lemma_first_seen(
    store: SchemaMap,
    req: RequestView,
    secret: Option<Seq<char>>,
    text: Seq<char>,
)
    requires
        !refresh_forced(req.refresh, secret),
        !store.contains_key(key_of(req)),
    ensures
        serve(store, req, secret, Some(text)) == (
            store.insert(key_of(req), sanitized(text)),
            respond(200, sanitized(text), true),
        ),
        serve(store, req, secret, Some(text)).0.dom() == store.dom().insert(key_of(req)),
{
}

/// Without a forced refresh, a stored schema is looked up and handed to the
/// model as the prompt's mandatory structure, verbatim.
pub proof fn lemma_stored_schema_constrains(store: SchemaMap, req: RequestView, secret: Option<Seq<char>>)
    requires
        !refresh_forced(req.refresh, secret),
        store.contains_key(key_of(req)),
    ensures
        after_lookup(store, req, secret).1 == generate_for(req, Some(store[key_of(req)])),
        is_slice_of(
            store[key_of(req)],
            user_prompt(req.method, req.path, req.headers, req.body, Some(store[key_of(req)])),
        ),
{
    lemma_schema_in_prompt(req.method, req.path, req.headers, req.body, store[key_of(req)]);
}

/// A request for a key that is already stored, without a forced refresh,
/// writes nothing; two such requests in a row leave the store as it was.
pub proof fn lemma_cache_hit_keeps_store(
    store: SchemaMap,
    req1: RequestView,
    req2: RequestView,
    secret: Option<Seq<char>>,
    generated1: Option<Seq<char>>,
    generated2: Option<Seq<char>>,
)
    requires
        !refresh_forced(req1.refresh, secret),
        !refresh_forced(req2.refresh, secret),
        key_of(req1) == key_of(req2),
        store.contains_key(key_of(req1)),
    ensures
        serve(store, req1, secret, generated1).0 == store,
        serve(serve(store, req1, secret, generated1).0, req2, secret, generated2).0 == store,
        generated1 matches Some(t) ==> serve(store, req1, secret, generated1).1 == respond(
            200,
            sanitized(t),
            true,
        ),
{
}

/// A request that satisfies the refresh rule writes in replace mode whatever
/// the store holds, and the key then holds the newly sanitised text.
pub proof fn lemma_forced_replace(store: SchemaMap, req: RequestView, secret: Option<Seq<char>>, text: Seq<char>)
    requires
        refresh_forced(req.refresh, secret),
    ensures
        next(after_lookup(store, req, secret).0, EventView::Generated(Some(text))).1
            == (ActionView::Store { mode: WriteMode::Replace, schema: sanitized(text) }),
        serve(store, req, secret, Some(text)) == (
            store.insert(key_of(req), sanitized(text)),
            respond(200, sanitized(text), true),
        ),
{
}

/// A generation that gives no text answers 404 and leaves the store as it was.
pub proof fn lemma_empty_result(store: SchemaMap, req: RequestView, secret: Option<Seq<char>>)
    ensures
        serve(store, req, secret, None) == (store, respond(404, EMPTY_RESULT_MESSAGE@, false)),
{
}

/// The write and the reply of a request whose lookup found nothing and whose
/// model answered `text`.
pub open spec fn first_time_steps(req: RequestView, secret: Option<Seq<char>>, text: Seq<char>) -> (
    ActionView,
    ActionView,
) {
    let (e1, _a1) = next(start(req, secret).0, EventView::Found(None));
    let (e2, a2) = next(e1, EventView::Generated(Some(text)));
    (a2, next(e2, EventView::Stored).1)
}

/// The store after the writes of `schemas`, in order, all made only where the
/// key is absent.
pub open spec fn write_all_if_absent(
    store: SchemaMap,
    key: (Seq<char>, Seq<char>),
    schemas: Seq<Seq<char>>,
) -> SchemaMap
    decreases schemas.len(),
{
    if schemas.len() == 0 {
        store
    } else {
        apply_write(
            write_all_if_absent(store, key, schemas.drop_last()),
            key,
            WriteMode::IfAbsent,
            schemas.last(),
        )
    }
}

proof fn lemma_if_absent_sequence(store: SchemaMap, key: (Seq<char>, Seq<char>), schemas: Seq<Seq<char>>)
    requires
        !store.contains_key(key),
        schemas.len() > 0,
    ensures
        write_all_if_absent(store, key, schemas) == store.insert(key, schemas[0]),
    decreases schemas.len(),
{
    let rest = schemas.drop_last();
    if schemas.len() > 1 {
        lemma_if_absent_sequence(store, key, rest);
        assert(rest[0] == schemas[0]);
        assert(write_all_if_absent(store, key, rest).contains_key(key));
    } else {
        assert(write_all_if_absent(store, key, rest) == store);
    }
}

/// Requests for the same unseen key that all look it up before any of them
/// writes (none forcing a refresh): each writes in insert-if-absent mode and
/// answers 200 with its own sanitised text, and whatever order the writes
/// land in, the store ends with one record for the key, the first writer's.
pub proof fn lemma_concurrent_first_writers(
    store: SchemaMap,
    reqs: Seq<RequestView>,
    secret: Option<Seq<char>>,
    texts: Seq<Seq<char>>,
)
    requires
        !store.contains_key(key_of(reqs[0])),
        reqs.len() > 0,
        texts.len() == reqs.len(),
        forall|i: int| 0 <= i < reqs.len() ==> key_of(#[trigger] reqs[i]) == key_of(reqs[0]),
        forall|i: int| 0 <= i < reqs.len() ==> !refresh_forced(#[trigger] reqs[i].refresh, secret),
    ensures
        forall|i: int| 0 <= i < reqs.len() ==> #[trigger] first_time_steps(reqs[i], secret, texts[i]) == (
            ActionView::Store { mode: WriteMode::IfAbsent, schema: sanitized(texts[i]) },
            respond(200, sanitized(texts[i]), true),
        ),
        write_all_if_absent(store, key_of(reqs[0]), texts.map_values(|t: Seq<char>| sanitized(t)))
            == store.insert(key_of(reqs[0]), sanitized(texts[0])),
        write_all_if_absent(store, key_of(reqs[0]), texts.map_values(|t: Seq<char>| sanitized(t))).dom()
            == store.dom().insert(key_of(reqs[0])),
{
    let schemas = texts.map_values(|t: Seq<char>| sanitized(t));
    lemma_if_absent_sequence(store, key_of(reqs[0]), schemas);
}

} // verus!

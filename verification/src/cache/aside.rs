//! The cache-aside protocol, one query at a time.
//!
//! A query goes through up to six answers from outside: the encoding of its
//! key, the store's answer, the decoding of a stored value, the handler's
//! answer, the encoding of that answer, and the store's acceptance of the
//! new entry. After each, one function here says what comes next, as a
//! [`CacheAsideStep`].
//!
//! A batch of queries is answered one query after the other, and a query
//! that fails leaves its error in its own place: the queries after it are
//! answered all the same. [`CacheAsideBatch`](crate::cache::batch) hands the
//! queries out and keeps the answers.

use crate::cache::key::{CacheKey, CacheKeyView};
use crate::cache::{CacheServiceError, CacheableQuery};
use vstd::prelude::*;

verus! {

/// What the driver of the protocol has to do next for one query.
pub enum CacheAsideStep<Req, Resp, E, I> {
    /// Ask the store for the entry under the fingerprint of `key`.
    Lookup { key: CacheKey, request: Req },
    /// The store had the entry: decode `value` into a response.
    Decode { value: Vec<u8> },
    /// The store had no entry: wait for the handler and call it with
    /// `request`.
    CallInner { key: CacheKey, request: Req },
    /// The handler answered: encode `response`.
    Encode { key: CacheKey, response: Resp },
    /// Put `value` into the store under the fingerprint of `key`.
    Store { key: CacheKey, value: Vec<u8>, response: Resp },
    /// The query is answered.
    Done(Result<Resp, CacheServiceError<E, I>>),
}

/// The mathematical content of a [`CacheAsideStep`].
pub enum CacheAsideStepView<Req, Resp, E, I> {
    Lookup { key: CacheKeyView, request: Req },
    Decode { value: Seq<u8> },
    CallInner { key: CacheKeyView, request: Req },
    Encode { key: CacheKeyView, response: Resp },
    Store { key: CacheKeyView, value: Seq<u8>, response: Resp },
    Done(Result<Resp, CacheServiceError<E, I>>),
}

impl<Req, Resp, E, I> View for CacheAsideStep<Req, Resp, E, I> {
    type V = CacheAsideStepView<Req, Resp, E, I>;

    open spec fn view(&self) -> CacheAsideStepView<Req, Resp, E, I> {
        match *self {
            CacheAsideStep::Lookup { key, request } => CacheAsideStepView::Lookup {
                key: key@,
                request,
            },
            CacheAsideStep::Decode { value } => CacheAsideStepView::Decode { value: value@ },
            CacheAsideStep::CallInner { key, request } => CacheAsideStepView::CallInner {
                key: key@,
                request,
            },
            CacheAsideStep::Encode { key, response } => CacheAsideStepView::Encode {
                key: key@,
                response,
            },
            CacheAsideStep::Store { key, value, response } => CacheAsideStepView::Store {
                key: key@,
                value: value@,
                response,
            },
            CacheAsideStep::Done(result) => CacheAsideStepView::Done(result),
        }
    }
}

/// A `Result` whose value is a vector of bytes, as the bytes themselves.
pub open spec fn bytes_of<X>(encoded: Result<Vec<u8>, X>) -> Result<Seq<u8>, X> {
    match encoded {
        Ok(bytes) => Ok(bytes@),
        Err(error) => Err(error),
    }
}

/// What the store found, as the bytes themselves.
pub open spec fn found_bytes<E>(found: Result<Option<Vec<u8>>, E>) -> Result<Option<Seq<u8>>, E> {
    match found {
        Ok(Some(bytes)) => Ok(Some(bytes@)),
        Ok(None) => Ok(None),
        Err(error) => Err(error),
    }
}

/// The step after the request's key was encoded, or could not be.
pub open spec fn begin_spec<Req, Resp, E, I>(
    tag: Seq<u8>,
    request: Req,
    encoded_key: Result<Seq<u8>, rmp_serde::encode::Error>,
) -> CacheAsideStepView<Req, Resp, E, I> {
    match encoded_key {
        Ok(key) => CacheAsideStepView::Lookup { key: CacheKeyView { tag, key }, request },
        Err(error) => CacheAsideStepView::Done(Err(CacheServiceError::SerializeError(error))),
    }
}

/// The step after the store has answered the lookup.
pub open spec fn looked_up_spec<Req, Resp, E, I>(
    key: CacheKeyView,
    request: Req,
    found: Result<Option<Seq<u8>>, E>,
) -> CacheAsideStepView<Req, Resp, E, I> {
    match found {
        Ok(Some(value)) => CacheAsideStepView::Decode { value },
        Ok(None) => CacheAsideStepView::CallInner { key, request },
        Err(error) => CacheAsideStepView::Done(Err(CacheServiceError::CacheError(error))),
    }
}

/// The step after a stored value was decoded, or could not be.
pub open spec fn decoded_spec<Req, Resp, E, I>(
    decoded: Result<Resp, rmp_serde::decode::Error>,
) -> CacheAsideStepView<Req, Resp, E, I> {
    match decoded {
        Ok(response) => CacheAsideStepView::Done(Ok(response)),
        Err(error) => CacheAsideStepView::Done(Err(CacheServiceError::DeserializeError(error))),
    }
}

/// The step after the handler has answered, or failed.
pub open spec fn inner_answered_spec<Req, Resp, E, I>(
    key: CacheKeyView,
    answer: Result<Resp, I>,
) -> CacheAsideStepView<Req, Resp, E, I> {
    match answer {
        Ok(response) => CacheAsideStepView::Encode { key, response },
        Err(error) => CacheAsideStepView::Done(Err(CacheServiceError::InnerError(error))),
    }
}

/// The step after the handler's response was encoded, or could not be.
pub open spec fn encoded_spec<Req, Resp, E, I>(
    key: CacheKeyView,
    response: Resp,
    encoded: Result<Seq<u8>, rmp_serde::encode::Error>,
) -> CacheAsideStepView<Req, Resp, E, I> {
    match encoded {
        Ok(value) => CacheAsideStepView::Store { key, value, response },
        Err(error) => CacheAsideStepView::Done(Err(CacheServiceError::SerializeError(error))),
    }
}

/// The step after the store has taken the new entry, or refused it.
pub open spec fn stored_spec<Req, Resp, E, I>(
    response: Resp,
    stored: Result<(), E>,
) -> CacheAsideStepView<Req, Resp, E, I> {
    match stored {
        Ok(()) => CacheAsideStepView::Done(Ok(response)),
        Err(error) => CacheAsideStepView::Done(Err(CacheServiceError::CacheError(error))),
    }
}

/// Begins a query: `encoded_key` is the encoding of the request's own key,
/// `tag` names the shape of the request.
///
/// With the key in hand the store is asked. A key that could not be encoded
/// ends the query with `SerializeError`.
pub fn begin<Req, Resp, E, I>(
    tag: Vec<u8>,
    request: Req,
    encoded_key: Result<Vec<u8>, rmp_serde::encode::Error>,
) -> (step: CacheAsideStep<Req, Resp, E, I>)
    ensures
        step@ == begin_spec::<Req, Resp, E, I>(tag@, request, bytes_of(encoded_key)),
{
    match encoded_key {
        Ok(key) => CacheAsideStep::Lookup { key: CacheKey::new(tag, key), request },
        Err(error) => CacheAsideStep::Done(Err(CacheServiceError::SerializeError(error))),
    }
}

/// Begins the query `request`, whose shape gives the tag: see [`begin`].
/// `encoded_key` is the encoding of the request's own key.
pub fn begin_query<Req: CacheableQuery, Resp, E, I>(
    request: Req,
    encoded_key: Result<Vec<u8>, rmp_serde::encode::Error>,
) -> (step: CacheAsideStep<Req, Resp, E, I>)
    ensures
        exists|tag: &'static str| #[trigger]
            call_ensures(Req::cache_tag, (), tag) && step@ == begin_spec::<Req, Resp, E, I>(
                vstd::utf8::encode_utf8(tag@),
                request,
                bytes_of(encoded_key),
            ),
{
    let tag = Req::cache_tag();
    begin(tag.as_bytes_vec(), request, encoded_key)
}

/// Takes in the store's answer to the lookup.
///
/// A hit is decoded: the handler is not called and the store is not written.
/// A miss goes to the handler, with the request as it came. A store that
/// failed ends the query with `CacheError`.
pub fn looked_up<Req, Resp, E, I>(
    key: CacheKey,
    request: Req,
    found: Result<Option<Vec<u8>>, E>,
) -> (step: CacheAsideStep<Req, Resp, E, I>)
    ensures
        step@ == looked_up_spec::<Req, Resp, E, I>(key@, request, found_bytes(found)),
{
    match found {
        Ok(Some(value)) => CacheAsideStep::Decode { value },
        Ok(None) => CacheAsideStep::CallInner { key, request },
        Err(error) => CacheAsideStep::Done(Err(CacheServiceError::CacheError(error))),
    }
}

/// Takes in the decoding of a stored value.
///
/// The decoded response answers the query. Bytes that could not be decoded
/// end it with `DeserializeError`.
pub fn decoded<Req, Resp, E, I>(decoding: Result<Resp, rmp_serde::decode::Error>) -> (step:
    CacheAsideStep<Req, Resp, E, I>)
    ensures
        step@ == decoded_spec::<Req, Resp, E, I>(decoding),
{
    match decoding {
        Ok(response) => CacheAsideStep::Done(Ok(response)),
        Err(error) => CacheAsideStep::Done(Err(CacheServiceError::DeserializeError(error))),
    }
}

/// Takes in the handler's answer, which is also its failure to get ready.
///
/// A response is encoded for the store. A failure ends the query with the
/// handler's own error in `InnerError`, and nothing is stored.
pub fn inner_answered<Req, Resp, E, I>(key: CacheKey, answer: Result<Resp, I>) -> (step:
    CacheAsideStep<Req, Resp, E, I>)
    ensures
        step@ == inner_answered_spec::<Req, Resp, E, I>(key@, answer),
{
    match answer {
        Ok(response) => CacheAsideStep::Encode { key, response },
        Err(error) => CacheAsideStep::Done(Err(CacheServiceError::InnerError(error))),
    }
}

/// Takes in the encoding of the handler's response.
///
/// The encoded response is stored under the query's fingerprint. A response
/// that could not be encoded ends the query with `SerializeError`, and
/// nothing is stored.
pub fn encoded<Req, Resp, E, I>(
    key: CacheKey,
    response: Resp,
    encoding: Result<Vec<u8>, rmp_serde::encode::Error>,
) -> (step: CacheAsideStep<Req, Resp, E, I>)
    ensures
        step@ == encoded_spec::<Req, Resp, E, I>(key@, response, bytes_of(encoding)),
{
    match encoding {
        Ok(value) => CacheAsideStep::Store { key, value, response },
        Err(error) => CacheAsideStep::Done(Err(CacheServiceError::SerializeError(error))),
    }
}

/// Takes in the store's answer to the new entry.
///
/// Once the entry is stored the handler's response answers the query. A
/// store that failed ends it with `CacheError`.
pub fn stored<Req, Resp, E, I>(response: Resp, storing: Result<(), E>) -> (step: CacheAsideStep<
    Req,
    Resp,
    E,
    I,
>)
    ensures
        step@ == stored_spec::<Req, Resp, E, I>(response, storing),
{
    match storing {
        Ok(()) => CacheAsideStep::Done(Ok(response)),
        Err(error) => CacheAsideStep::Done(Err(CacheServiceError::CacheError(error))),
    }
}

/// Everything outside the protocol that a query meets, as functions of what
/// it is given. The store is taken to be one that never fails.
#[verifier::reject_recursive_types(Req)]
#[verifier::reject_recursive_types(Resp)]
#[verifier::reject_recursive_types(I)]
pub struct Surroundings<Req, Resp, I> {
    /// Names the shape of the requests.
    pub tag: Seq<u8>,
    /// Encodes the key of a request.
    pub encode_key: spec_fn(Req) -> Result<Seq<u8>, rmp_serde::encode::Error>,
    /// The wrapped handler.
    pub handler: spec_fn(Req) -> Result<Resp, I>,
    /// Encodes a response.
    pub encode: spec_fn(Resp) -> Result<Seq<u8>, rmp_serde::encode::Error>,
    /// Decodes a stored value.
    pub decode: spec_fn(Seq<u8>) -> Result<Resp, rmp_serde::decode::Error>,
}

/// How a query, or a batch of them, has ended.
pub struct Answered<A> {
    /// The entries of the store afterwards, by fingerprint.
    pub store: Map<Seq<u8>, Seq<u8>>,
    /// What the caller gets.
    pub answer: A,
    /// How many times the handler was called.
    pub calls: nat,
}

/// How many steps a query takes at most.
pub open spec fn longest_run() -> nat {
    4
}

/// Carries out `step` and those that follow it, at most `fuel` of them,
/// against a store that holds `store`.
pub open spec fn run<Req, Resp, E, I>(
    around: Surroundings<Req, Resp, I>,
    store: Map<Seq<u8>, Seq<u8>>,
    step: CacheAsideStepView<Req, Resp, E, I>,
    fuel: nat,
) -> Answered<Option<Result<Resp, CacheServiceError<E, I>>>>
    decreases fuel,
{
    if let CacheAsideStepView::Done(result) = step {
        Answered { store, answer: Some(result), calls: 0 }
    } else if fuel == 0 {
        Answered { store, answer: None, calls: 0 }
    } else {
        let left = (fuel - 1) as nat;
        match step {
            CacheAsideStepView::Lookup { key, request } => {
                let found = if store.dom().contains(key.fingerprint()) {
                    Some(store[key.fingerprint()])
                } else {
                    None
                };
                run(around, store, looked_up_spec(key, request, Ok(found)), left)
            },
            CacheAsideStepView::Decode { value } => run(
                around,
                store,
                decoded_spec((around.decode)(value)),
                left,
            ),
            CacheAsideStepView::CallInner { key, request } => {
                let rest = run(
                    around,
                    store,
                    inner_answered_spec::<Req, Resp, E, I>(key, (around.handler)(request)),
                    left,
                );
                Answered { calls: rest.calls + 1, ..rest }
            },
            CacheAsideStepView::Encode { key, response } => run(
                around,
                store,
                encoded_spec(key, response, (around.encode)(response)),
                left,
            ),
            CacheAsideStepView::Store { key, value, response } => run(
                around,
                store.insert(key.fingerprint(), value),
                stored_spec(response, Ok(())),
                left,
            ),
            CacheAsideStepView::Done(result) => Answered { store, answer: Some(result), calls: 0 },
        }
    }
}

/// Answers one query against a store that holds `store`.
pub open spec fn query<Req, Resp, E, I>(
    around: Surroundings<Req, Resp, I>,
    store: Map<Seq<u8>, Seq<u8>>,
    request: Req,
) -> Answered<Option<Result<Resp, CacheServiceError<E, I>>>> {
    run(
        around,
        store,
        begin_spec::<Req, Resp, E, I>(around.tag, request, (around.encode_key)(request)),
        longest_run(),
    )
}

/// Answers a batch of queries, one after the other, against a store that
/// holds `store` at first.
pub open spec fn query_all<Req, Resp, E, I>(
    around: Surroundings<Req, Resp, I>,
    store: Map<Seq<u8>, Seq<u8>>,
    requests: Seq<Req>,
) -> Answered<Seq<Option<Result<Resp, CacheServiceError<E, I>>>>>
    decreases requests.len(),
{
    if requests.len() == 0 {
        Answered { store, answer: Seq::empty(), calls: 0 }
    } else {
        let first = query::<Req, Resp, E, I>(around, store, requests[0]);
        let rest = query_all::<Req, Resp, E, I>(around, first.store, requests.drop_first());
        Answered {
            store: rest.store,
            answer: seq![first.answer] + rest.answer,
            calls: first.calls + rest.calls,
        }
    }
}

/// Every query comes to an end, within [`longest_run`] steps.
pub proof fn lemma_query_ends<Req, Resp, E, I>(
    around: Surroundings<Req, Resp, I>,
    store: Map<Seq<u8>, Seq<u8>>,
    request: Req,
)
    ensures
        query::<Req, Resp, E, I>(around, store, request).answer is Some,
        query::<Req, Resp, E, I>(around, store, request).calls <= 1,
{
    reveal_with_fuel(run, 5);
}

/// A hit: where the store holds a value under the query's fingerprint, the
/// decoded value is the answer, the handler is not called and the store is
/// left as it was.
pub proof fn lemma_hit_spares_the_handler<Req, Resp, E, I>(
    around: Surroundings<Req, Resp, I>,
    store: Map<Seq<u8>, Seq<u8>>,
    request: Req,
)
    requires
        (around.encode_key)(request) is Ok,
        store.dom().contains(
            (CacheKeyView { tag: around.tag, key: (around.encode_key)(request)->Ok_0 }).fingerprint(),
        ),
    ensures
        ({
            let fingerprint = (CacheKeyView {
                tag: around.tag,
                key: (around.encode_key)(request)->Ok_0,
            }).fingerprint();
            let ended = query::<Req, Resp, E, I>(around, store, request);
            &&& ended.store == store
            &&& ended.calls == 0
            &&& ended.answer == Some(
                match (around.decode)(store[fingerprint]) {
                    Ok(response) => Ok(response),
                    Err(error) => Err(CacheServiceError::<E, I>::DeserializeError(error)),
                },
            )
        }),
{
    reveal_with_fuel(run, 5);
}

/// A miss: where the store holds nothing under the query's fingerprint, the
/// handler is called once. Its response is the answer and its encoding is
/// stored; its failure is the answer, as `InnerError`, and the store is left
/// as it was.
pub proof fn lemma_miss_asks_the_handler<Req, Resp, E, I>(
    around: Surroundings<Req, Resp, I>,
    store: Map<Seq<u8>, Seq<u8>>,
    request: Req,
)
    requires
        (around.encode_key)(request) is Ok,
        !store.dom().contains(
            (CacheKeyView { tag: around.tag, key: (around.encode_key)(request)->Ok_0 }).fingerprint(),
        ),
    ensures
        ({
            let fingerprint = (CacheKeyView {
                tag: around.tag,
                key: (around.encode_key)(request)->Ok_0,
            }).fingerprint();
            let ended = query::<Req, Resp, E, I>(around, store, request);
            &&& ended.calls == 1
            &&& match (around.handler)(request) {
                Ok(response) => match (around.encode)(response) {
                    Ok(value) => ended.answer == Some(Ok::<Resp, CacheServiceError<E, I>>(response))
                        && ended.store == store.insert(fingerprint, value),
                    Err(error) => ended.answer == Some(
                        Err::<Resp, CacheServiceError<E, I>>(CacheServiceError::SerializeError(error)),
                    ) && ended.store == store,
                },
                Err(error) => ended.answer == Some(
                    Err::<Resp, CacheServiceError<E, I>>(CacheServiceError::InnerError(error)),
                ) && ended.store == store,
            }
        }),
{
    reveal_with_fuel(run, 5);
}

/// Round trip: of two equal queries in a row, the first of which misses, the
/// second is answered from the store. Both get the handler's response, and
/// the handler is called once in all. This holds where a stored response
/// decodes to what was encoded.
pub proof fn lemma_second_query_hits<Req, Resp, E, I>(
    around: Surroundings<Req, Resp, I>,
    store: Map<Seq<u8>, Seq<u8>>,
    request: Req,
    response: Resp,
)
    requires
        (around.encode_key)(request) is Ok,
        !store.dom().contains(
            (CacheKeyView { tag: around.tag, key: (around.encode_key)(request)->Ok_0 }).fingerprint(),
        ),
        (around.handler)(request) == Ok::<Resp, I>(response),
        (around.encode)(response) is Ok,
        (around.decode)((around.encode)(response)->Ok_0) == Ok::<Resp, rmp_serde::decode::Error>(
            response,
        ),
    ensures
        ({
            let ended = query_all::<Req, Resp, E, I>(around, store, seq![request, request]);
            &&& ended.calls == 1
            &&& ended.answer == seq![
                Some(Ok::<Resp, CacheServiceError<E, I>>(response)),
                Some(Ok::<Resp, CacheServiceError<E, I>>(response)),
            ]
        }),
{
    let requests = seq![request, request];
    lemma_miss_asks_the_handler::<Req, Resp, E, I>(around, store, request);
    let first = query::<Req, Resp, E, I>(around, store, request);
    lemma_hit_spares_the_handler::<Req, Resp, E, I>(around, first.store, request);
    let second = query::<Req, Resp, E, I>(around, first.store, request);
    let tail = requests.drop_first();
    assert(query_all::<Req, Resp, E, I>(around, second.store, tail.drop_first()).calls == 0);
    assert(query_all::<Req, Resp, E, I>(around, first.store, tail).calls == second.calls);
}

/// A batch gets one answer for each of its queries, whatever becomes of the
/// others.
pub proof fn lemma_one_answer_per_query<Req, Resp, E, I>(
    around: Surroundings<Req, Resp, I>,
    store: Map<Seq<u8>, Seq<u8>>,
    requests: Seq<Req>,
)
    ensures
        query_all::<Req, Resp, E, I>(around, store, requests).answer.len() == requests.len(),
        query_all::<Req, Resp, E, I>(around, store, requests).calls <= requests.len(),
        forall|i: int|
            0 <= i < requests.len() ==> (#[trigger] query_all::<Req, Resp, E, I>(
                around,
                store,
                requests,
            ).answer[i]) is Some,
    decreases requests.len(),
{
    if requests.len() > 0 {
        let first = query::<Req, Resp, E, I>(around, store, requests[0]);
        lemma_query_ends::<Req, Resp, E, I>(around, store, requests[0]);
        lemma_one_answer_per_query::<Req, Resp, E, I>(around, first.store, requests.drop_first());
    }
}

} // verus!

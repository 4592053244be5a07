use eris_lib::cache::aside::{
    begin, begin_query, decoded, encoded, inner_answered, looked_up, stored, CacheAsideStep,
};
use eris_lib::cache::batch::{BatchNext, CacheAsideBatch};
use eris_lib::cache::key::CacheKey;
use eris_lib::cache::{CacheServiceError, CacheableQuery};
use std::collections::HashMap;
use std::convert::Infallible;

type Step = CacheAsideStep<&'static str, String, Infallible, String>;

/// A handler that answers `k<n>` with `v<n>` and counts its calls.
struct Counting {
    calls: u32,
}

impl Counting {
    fn call(&mut self, request: &str) -> Result<String, String> {
        self.calls += 1;
        match request.strip_prefix('k') {
            Some(rest) => Ok(format!("v{rest}")),
            None => Err(format!("no answer for {request}")),
        }
    }
}

/// Answers one query against `store`, calling `handler` on a miss.
fn query(
    store: &mut HashMap<Vec<u8>, Vec<u8>>,
    handler: &mut Counting,
    request: &'static str,
) -> Result<String, CacheServiceError<Infallible, String>> {
    let mut step: Step = begin(b"Q".to_vec(), request, rmp_serde::to_vec(request));
    loop {
        step = match step {
            CacheAsideStep::Lookup { key, request } => {
                let found = store.get(&key.to_bytes()).cloned();
                looked_up(key, request, Ok(found))
            }
            CacheAsideStep::Decode { value } => decoded(rmp_serde::from_slice(&value)),
            CacheAsideStep::CallInner { key, request } => {
                inner_answered(key, handler.call(request))
            }
            CacheAsideStep::Encode { key, response } => {
                let bytes = rmp_serde::to_vec(&response);
                encoded(key, response, bytes)
            }
            CacheAsideStep::Store { key, value, response } => {
                store.insert(key.to_bytes(), value);
                stored(response, Ok(()))
            }
            CacheAsideStep::Done(answer) => return answer,
        };
    }
}

#[test]
fn second_identical_query_hits_the_cache() {
    let mut store = HashMap::new();
    let mut handler = Counting { calls: 0 };
    let first = query(&mut store, &mut handler, "k1");
    assert!(matches!(first, Ok(value) if value == "v1"));
    assert_eq!(handler.calls, 1);
    assert_eq!(store.len(), 1);
    let second = query(&mut store, &mut handler, "k1");
    assert!(matches!(second, Ok(value) if value == "v1"));
    assert_eq!(handler.calls, 1);
    assert_eq!(store.len(), 1);
}

#[test]
fn different_keys_miss_separately() {
    let mut store = HashMap::new();
    let mut handler = Counting { calls: 0 };
    assert!(matches!(query(&mut store, &mut handler, "k1"), Ok(v) if v == "v1"));
    assert!(matches!(query(&mut store, &mut handler, "k2"), Ok(v) if v == "v2"));
    assert!(matches!(query(&mut store, &mut handler, "k1"), Ok(v) if v == "v1"));
    assert_eq!(handler.calls, 2);
    assert_eq!(store.len(), 2);
}

#[test]
fn failed_query_leaves_the_rest_of_the_batch_alone() {
    let mut store = HashMap::new();
    let mut handler = Counting { calls: 0 };
    let answers: Vec<_> = ["k1", "bad", "k1", "k3"]
        .into_iter()
        .map(|request| query(&mut store, &mut handler, request))
        .collect();
    assert_eq!(answers.len(), 4);
    assert!(matches!(&answers[0], Ok(v) if v == "v1"));
    assert!(matches!(&answers[1], Err(CacheServiceError::InnerError(e)) if e == "no answer for bad"));
    assert!(matches!(&answers[2], Ok(v) if v == "v1"));
    assert!(matches!(&answers[3], Ok(v) if v == "v3"));
    assert_eq!(handler.calls, 3);
    assert_eq!(store.len(), 2);
}

#[test]
fn key_that_cannot_be_encoded_is_a_serialize_error() {
    let step: Step = begin(
        b"Q".to_vec(),
        "k1",
        Err(rmp_serde::encode::Error::Syntax("no key".to_string())),
    );
    assert!(matches!(
        step,
        CacheAsideStep::Done(Err(CacheServiceError::SerializeError(rmp_serde::encode::Error::Syntax(m)))) if m == "no key"
    ));
}

#[test]
fn encoded_key_is_looked_up_under_its_tag() {
    let step: Step = begin(b"Q".to_vec(), "k1", Ok(vec![1, 2, 3]));
    match step {
        CacheAsideStep::Lookup { key, request } => {
            assert_eq!(request, "k1");
            assert_eq!(key.to_bytes(), vec![0, 0, 0, 0, 0, 0, 0, 1, b'Q', 1, 2, 3]);
        }
        _ => panic!("a query with a key is looked up"),
    }
}

#[test]
fn hit_is_decoded_without_asking_the_handler() {
    let key = CacheKey::new(b"Q".to_vec(), vec![1]);
    let step: Step = looked_up(key, "k1", Ok(Some(vec![0xa2, b'v', b'1'])));
    assert!(matches!(step, CacheAsideStep::Decode { value } if value == vec![0xa2, b'v', b'1']));
}

#[test]
fn miss_goes_to_the_handler_with_the_request() {
    let key = CacheKey::new(b"Q".to_vec(), vec![1]);
    let step: Step = looked_up(key, "k1", Ok(None));
    match step {
        CacheAsideStep::CallInner { key, request } => {
            assert_eq!(request, "k1");
            assert_eq!(key.to_bytes(), CacheKey::new(b"Q".to_vec(), vec![1]).to_bytes());
        }
        _ => panic!("a miss goes to the handler"),
    }
}

#[test]
fn failing_store_is_a_cache_error() {
    let key = CacheKey::new(b"Q".to_vec(), vec![1]);
    let step: CacheAsideStep<&str, String, &str, String> = looked_up(key, "k1", Err("down"));
    assert!(matches!(step, CacheAsideStep::Done(Err(CacheServiceError::CacheError("down")))));
    let step: CacheAsideStep<&str, String, &str, String> = stored("v1".to_string(), Err("full"));
    assert!(matches!(step, CacheAsideStep::Done(Err(CacheServiceError::CacheError("full")))));
}

#[test]
fn unreadable_entry_is_a_deserialize_error() {
    let step: Step = decoded(rmp_serde::from_slice::<String>(&[0xc1]));
    assert!(matches!(step, CacheAsideStep::Done(Err(CacheServiceError::DeserializeError(_)))));
    let step: Step = decoded(Ok("v1".to_string()));
    assert!(matches!(step, CacheAsideStep::Done(Ok(v)) if v == "v1"));
}

#[test]
fn handler_failure_surfaces_as_inner_error_and_nothing_is_stored() {
    let mut store = HashMap::new();
    let mut handler = Counting { calls: 0 };
    let answer = query(&mut store, &mut handler, "oops");
    assert!(matches!(answer, Err(CacheServiceError::InnerError(e)) if e == "no answer for oops"));
    assert_eq!(handler.calls, 1);
    assert!(store.is_empty());
}

#[test]
fn response_that_cannot_be_encoded_is_a_serialize_error() {
    let key = CacheKey::new(b"Q".to_vec(), vec![1]);
    let step: Step = encoded(
        key,
        "v1".to_string(),
        Err(rmp_serde::encode::Error::UnknownLength),
    );
    assert!(matches!(
        step,
        CacheAsideStep::Done(Err(CacheServiceError::SerializeError(rmp_serde::encode::Error::UnknownLength)))
    ));
}

#[test]
fn encoded_response_is_stored_then_returned() {
    let key = CacheKey::new(b"Q".to_vec(), vec![1]);
    let step: Step = encoded(key, "v1".to_string(), Ok(vec![9, 9]));
    match step {
        CacheAsideStep::Store { key, value, response } => {
            assert_eq!(key.to_bytes(), CacheKey::new(b"Q".to_vec(), vec![1]).to_bytes());
            assert_eq!(value, vec![9, 9]);
            let step: Step = stored(response, Ok(()));
            assert!(matches!(step, CacheAsideStep::Done(Ok(v)) if v == "v1"));
        }
        _ => panic!("an encoded response is stored"),
    }
}

#[test]
fn fingerprint_is_tag_length_tag_and_key() {
    let key = CacheKey::new(b"ab".to_vec(), vec![7, 8, 9]);
    assert_eq!(key.to_bytes(), vec![0, 0, 0, 0, 0, 0, 0, 2, b'a', b'b', 7, 8, 9]);
    let empty = CacheKey::new(Vec::new(), Vec::new());
    assert_eq!(empty.to_bytes(), vec![0u8; 8]);
    let long = CacheKey::new(vec![1u8; 300], vec![2]);
    let bytes = long.to_bytes();
    assert_eq!(&bytes[..8], &[0, 0, 0, 0, 0, 0, 1, 44]);
    assert_eq!(bytes.len(), 8 + 300 + 1);
}

#[test]
fn tag_keeps_request_shapes_apart() {
    let a = CacheKey::new(b"a".to_vec(), b"bc".to_vec());
    let b = CacheKey::new(b"ab".to_vec(), b"c".to_vec());
    assert_ne!(a.to_bytes(), b.to_bytes());
    let same = CacheKey::new(b"a".to_vec(), b"bc".to_vec());
    assert_eq!(a.to_bytes(), same.to_bytes());
}

struct ById(u32);

impl CacheableQuery for ById {
    type Key = u32;

    fn cache_tag() -> &'static str {
        "by-id"
    }

    fn cache_key(&self) -> u32 {
        self.0
    }
}

#[test]
fn cacheable_query_gives_its_key() {
    assert_eq!(ById(7).cache_key(), 7);
}

struct ByName(&'static str);

impl CacheableQuery for ByName {
    type Key = &'static str;

    fn cache_tag() -> &'static str {
        "by-name"
    }

    fn cache_key(&self) -> &'static str {
        self.0
    }
}

#[test]
fn query_is_looked_up_under_the_tag_of_its_shape() {
    let step: CacheAsideStep<ById, String, Infallible, String> = begin_query(ById(7), Ok(vec![7]));
    let by_id = match step {
        CacheAsideStep::Lookup { key, request } => {
            assert_eq!(request.0, 7);
            key.to_bytes()
        }
        _ => panic!("a query with a key is looked up"),
    };
    assert_eq!(by_id, CacheKey::new(b"by-id".to_vec(), vec![7]).to_bytes());
    let step: CacheAsideStep<ByName, String, Infallible, String> =
        begin_query(ByName("n"), Ok(vec![7]));
    match step {
        CacheAsideStep::Lookup { key, .. } => assert_ne!(key.to_bytes(), by_id),
        _ => panic!("a query with a key is looked up"),
    }
    let failed: CacheAsideStep<ById, String, Infallible, String> =
        begin_query(ById(7), Err(rmp_serde::encode::Error::UnknownLength));
    assert!(matches!(failed, CacheAsideStep::Done(Err(CacheServiceError::SerializeError(_)))));
}

type Batch = CacheAsideBatch<&'static str, String, Infallible, String>;

#[test]
fn batch_hands_out_queries_in_order_and_keeps_every_answer() {
    let mut store = HashMap::new();
    let mut handler = Counting { calls: 0 };
    let mut batch = Batch::new(vec!["k1", "bad", "k1", "k3"]);
    assert_eq!(batch.pending(), 4);
    let mut asked = Vec::new();
    let mut answered = None;
    let answers = loop {
        match batch.step(answered) {
            BatchNext::Query(request) => {
                asked.push(request);
                answered = Some(query(&mut store, &mut handler, request));
            }
            BatchNext::Finished(answers) => break answers,
        }
    };
    assert_eq!(asked, vec!["k1", "bad", "k1", "k3"]);
    assert_eq!(answers.len(), 4);
    assert!(matches!(&answers[0], Ok(v) if v == "v1"));
    assert!(matches!(&answers[1], Err(CacheServiceError::InnerError(e)) if e == "no answer for bad"));
    assert!(matches!(&answers[2], Ok(v) if v == "v1"));
    assert!(matches!(&answers[3], Ok(v) if v == "v3"));
    assert_eq!(handler.calls, 3);
    assert_eq!(batch.pending(), 0);
}

#[test]
fn empty_batch_finishes_at_once() {
    let mut batch = Batch::new(Vec::new());
    assert!(matches!(batch.step(None), BatchNext::Finished(answers) if answers.is_empty()));
}

#[test]
fn batch_of_one_finishes_with_its_answer() {
    let mut batch = Batch::new(vec!["k1"]);
    assert!(matches!(batch.step(None), BatchNext::Query("k1")));
    assert_eq!(batch.pending(), 0);
    match batch.step(Some(Err(CacheServiceError::InnerError("down".to_string())))) {
        BatchNext::Finished(answers) => {
            assert_eq!(answers.len(), 1);
            assert!(matches!(&answers[0], Err(CacheServiceError::InnerError(e)) if e == "down"));
        }
        BatchNext::Query(_) => panic!("no query is left"),
    }
    assert!(matches!(batch.step(None), BatchNext::Finished(answers) if answers.is_empty()));
}

//! A batch of queries: they are answered one after the other, and each
//! answer, error or not, takes the place of its query.
//!
//! A query that fails does not end the batch. Its error stands where its
//! response would have stood, and the queries after it are answered all the
//! same.

use crate::cache::CacheServiceError;
use vstd::prelude::*;

verus! {

/// The answer to one query of a batch.
pub type Answer<Resp, E, I> = Result<Resp, CacheServiceError<E, I>>;

/// What the driver of a batch has to do next.
pub enum BatchNext<Req, Resp, E, I> {
    /// Answer this query, then come back with its answer.
    Query(Req),
    /// Every query is answered: these are the answers, in the order of the
    /// queries.
    Finished(Vec<Answer<Resp, E, I>>),
}

/// The mathematical content of a [`BatchNext`].
pub enum BatchNextView<Req, Resp, E, I> {
    Query(Req),
    Finished(Seq<Answer<Resp, E, I>>),
}

impl<Req, Resp, E, I> View for BatchNext<Req, Resp, E, I> {
    type V = BatchNextView<Req, Resp, E, I>;

    open spec fn view(&self) -> BatchNextView<Req, Resp, E, I> {
        match *self {
            BatchNext::Query(request) => BatchNextView::Query(request),
            BatchNext::Finished(answers) => BatchNextView::Finished(answers@),
        }
    }
}

/// The mathematical content of a [`CacheAsideBatch`].
pub struct BatchProgress<Req, Resp, E, I> {
    /// The queries that are still to be answered, the next one first.
    pub pending: Seq<Req>,
    /// The answers so far, in the order of their queries.
    pub answers: Seq<Answer<Resp, E, I>>,
}

/// `items` from the last to the first.
pub open spec fn backwards<T>(items: Seq<T>) -> Seq<T> {
    Seq::new(items.len(), |i: int| items[items.len() - 1 - i])
}

impl<Req, Resp, E, I> BatchProgress<Req, Resp, E, I> {
    /// A batch of which nothing is answered yet.
    pub open spec fn initial(requests: Seq<Req>) -> Self {
        BatchProgress { pending: requests, answers: Seq::empty() }
    }

    /// The progress after `answered` has come in, and what is to be done
    /// next: the answer takes the next place, and the next query is handed
    /// out or, where none is left, all the answers are.
    pub open spec fn step(self, answered: Option<Answer<Resp, E, I>>) -> (
        Self,
        BatchNextView<Req, Resp, E, I>,
    ) {
        let collected = self.answers + (match answered {
            Some(answer) => seq![answer],
            None => Seq::empty(),
        });
        if self.pending.len() > 0 {
            (
                BatchProgress { pending: self.pending.drop_first(), answers: collected },
                BatchNextView::Query(self.pending[0]),
            )
        } else {
            (
                BatchProgress { pending: Seq::empty(), answers: Seq::empty() },
                BatchNextView::Finished(collected),
            )
        }
    }

    /// The queries that are handed out while `answers` come in one by one,
    /// and the answers of the batch, once it has finished.
    pub open spec fn run(self, answers: Seq<Answer<Resp, E, I>>) -> (
        Seq<Req>,
        Option<Seq<Answer<Resp, E, I>>>,
    )
        decreases answers.len(),
    {
        if answers.len() == 0 {
            (Seq::empty(), None)
        } else {
            let (next, todo) = self.step(Some(answers[0]));
            match todo {
                BatchNextView::Query(request) => {
                    let (asked, finished) = next.run(answers.drop_first());
                    (seq![request] + asked, finished)
                },
                BatchNextView::Finished(all) => (Seq::empty(), Some(all)),
            }
        }
    }
}

/// One place for each query, in the order of the queries: when each query
/// that is handed out is answered before the next is asked for, the queries
/// are handed out in their order, each once, and the batch ends with the
/// answers in the order in which they came in, errors among them.
pub proof fn lemma_one_answer_per_query_in_order<Req, Resp, E, I>(
    progress: BatchProgress<Req, Resp, E, I>,
    answers: Seq<Answer<Resp, E, I>>,
)
    requires
        answers.len() == progress.pending.len() + 1,
    ensures
        progress.run(answers) == (progress.pending, Some(progress.answers + answers)),
    decreases answers.len(),
{
    let (next, todo) = progress.step(Some(answers[0]));
    if progress.pending.len() > 0 {
        lemma_one_answer_per_query_in_order(next, answers.drop_first());
        assert(seq![progress.pending[0]] + next.pending =~= progress.pending);
        assert(next.answers + answers.drop_first() =~= progress.answers + answers);
    } else {
        assert(progress.answers + seq![answers[0]] =~= progress.answers + answers);
        assert(progress.run(answers).0 =~= progress.pending);
    }
}

/// A batch of queries on its way through the cache-aside protocol.
pub struct CacheAsideBatch<Req, Resp, E, I> {
    /// The queries that are still to be answered, the next one last.
    waiting: Vec<Req>,
    answers: Vec<Answer<Resp, E, I>>,
}

impl<Req, Resp, E, I> View for CacheAsideBatch<Req, Resp, E, I> {
    type V = BatchProgress<Req, Resp, E, I>;

    closed spec fn view(&self) -> BatchProgress<Req, Resp, E, I> {
        BatchProgress { pending: backwards(self.waiting@), answers: self.answers@ }
    }
}

impl<Req, Resp, E, I> CacheAsideBatch<Req, Resp, E, I> {
    /// A batch of which nothing is answered yet.
    pub fn new(requests: Vec<Req>) -> (batch: Self)
        ensures
            batch@ == BatchProgress::<Req, Resp, E, I>::initial(requests@),
    {
        let ghost all = requests@;
        let mut requests = requests;
        let mut waiting: Vec<Req> = Vec::new();
        while requests.len() > 0
            invariant
                requests@ == all.take(requests@.len() as int),
                requests@.len() <= all.len(),
                waiting@ == backwards(all.skip(requests@.len() as int)),
            decreases requests@.len(),
        {
            if let Some(request) = requests.pop() {
                waiting.push(request);
                assert(requests@ =~= all.take(requests@.len() as int));
                assert(waiting@ =~= backwards(all.skip(requests@.len() as int)));
            }
        }
        assert(backwards(waiting@) =~= all);
        CacheAsideBatch { waiting, answers: Vec::new() }
    }

    /// How many queries are still to be answered.
    pub fn pending(&self) -> (n: usize)
        ensures
            n == self@.pending.len(),
    {
        self.waiting.len()
    }

    /// Takes in the answer to the query that was handed out last, and hands
    /// out the next one.
    ///
    /// The answer, error or not, takes the next place among the answers. If
    /// a query is left, the first of them is handed out; if none is, the
    /// answers are, and the batch is empty again. The first call, before any
    /// query was handed out, brings no answer.
    pub fn step(&mut self, answered: Option<Answer<Resp, E, I>>) -> (next: BatchNext<
        Req,
        Resp,
        E,
        I,
    >)
        ensures
            (final(self)@, next@) == old(self)@.step(answered),
    {
        if let Some(answer) = answered {
            self.answers.push(answer);
        }
        let ghost collected = self.answers@;
        let ghost waiting = self.waiting@;
        assert(collected =~= old(self)@.answers + (match answered {
            Some(answer) => seq![answer],
            None => Seq::empty(),
        }));
        match self.waiting.pop() {
            Some(request) => {
                assert(backwards(self.waiting@) =~= backwards(waiting).drop_first());
                assert(request == backwards(waiting)[0]);
                BatchNext::Query(request)
            },
            None => {
                let mut all = Vec::new();
                std::mem::swap(&mut self.answers, &mut all);
                assert(backwards(self.waiting@) =~= Seq::<Req>::empty());
                assert(backwards(waiting).len() == 0);
                BatchNext::Finished(all)
            },
        }
    }
}

} // verus!

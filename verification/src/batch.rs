//! Submitting any number of items: ten at a time, one call after the other,
//! with a pause between the calls.
//!
//! The calls themselves are made elsewhere. A [`BatchSubmission`] decides
//! what comes next: [`BatchSubmission::begin`] gives the first step, and
//! [`BatchSubmission::advance`] takes the response of the chunk that was
//! submitted and gives the step after it.

use crate::api::{NewInputItemsResponse, MAX_ITEMS_PER_CALL};
use crate::decimal::{decimal, push_decimal};
use crate::errors::{Error, Kind, KindView};
use vstd::prelude::*;
use vstd::string::*;

verus! {

/// The shortest pause between two calls, in milliseconds.
pub const MIN_SLEEP_MS: u64 = 5;

/// A run of items that go into one call: those from `start` up to, not
/// including, `end`.
#[derive(PartialEq, Eq, Clone, Copy, Debug)]
pub struct Chunk {
    pub start: usize,
    pub end: usize,
}

/// A submission under way, between two of its calls.
#[derive(Debug)]
pub struct BatchSubmission {
    total: usize,
    sleep_ms: u64,
    submitted: usize,
    feed_id: Option<String>,
}

/// What to do next in a submission.
#[derive(Debug)]
pub enum BatchStep {
    /// Pause for `pause_ms` milliseconds, where a pause is set; then submit
    /// the items of `chunk` in one call and hand its response to
    /// [`BatchSubmission::advance`] of `submission`.
    Submit { submission: BatchSubmission, chunk: Chunk, pause_ms: Option<u64> },
    /// The submission is over, with the feed's identifier or with the error
    /// that ended it.
    Done(Result<String, Error>),
}

/// The mathematical content of a [`BatchSubmission`].
pub struct BatchView {
    /// The number of items to submit.
    pub total: nat,
    /// The pause between two calls, in milliseconds.
    pub sleep_ms: u64,
    /// The number of items in the chunks handed out so far.
    pub submitted: nat,
    /// The feed's identifier, once a call has returned it.
    pub feed_id: Option<Seq<char>>,
}

/// The mathematical content of a [`BatchStep`].
pub enum BatchStepView {
    Submit { submission: BatchView, chunk: Chunk, pause_ms: Option<u64> },
    Done(Result<Seq<char>, KindView>),
}

impl View for BatchSubmission {
    type V = BatchView;

    closed spec fn view(&self) -> BatchView {
        BatchView {
            total: self.total as nat,
            sleep_ms: self.sleep_ms,
            submitted: self.submitted as nat,
            feed_id: self.feed_id.deep_view(),
        }
    }
}

impl View for BatchStep {
    type V = BatchStepView;

    open spec fn view(&self) -> BatchStepView {
        match self {
            BatchStep::Submit { submission, chunk, pause_ms } => BatchStepView::Submit {
                submission: submission@,
                chunk: *chunk,
                pause_ms: *pause_ms,
            },
            BatchStep::Done(Ok(feed_id)) => BatchStepView::Done(Ok(feed_id@)),
            BatchStep::Done(Err(error)) => BatchStepView::Done(Err(error@)),
        }
    }
}

impl BatchView {
    /// Whether the submission is in a state that a run goes through: a
    /// first chunk has been handed out, whole chunks only unless all items
    /// are out, and the feed's identifier is known once a second chunk is.
    pub open spec fn well_formed(self) -> bool {
        &&& 0 < self.submitted <= self.total <= usize::MAX
        &&& self.sleep_ms >= MIN_SLEEP_MS
        &&& self.submitted == self.total || self.submitted % (MAX_ITEMS_PER_CALL as nat) == 0
        &&& self.feed_id is None ==> self.submitted <= MAX_ITEMS_PER_CALL
    }
}

/// The chunk that comes next when `submitted` of `total` items are out: the
/// next ten items, or all that are left where that is fewer.
pub open spec fn chunk_after(total: nat, submitted: nat) -> Chunk
    recommends
        submitted < total <= usize::MAX,
{
    Chunk {
        start: submitted as usize,
        end: if total - submitted > MAX_ITEMS_PER_CALL {
            (submitted + MAX_ITEMS_PER_CALL) as usize
        } else {
            total as usize
        },
    }
}

/// The refusal of a pause that is too short.
pub open spec fn sleep_message(sleep_ms: u64) -> Seq<char> {
    "sleep_ms ("@ + decimal(sleep_ms as nat) + ") must be 5 or more"@
}

/// The complaint about a submission that made no call.
pub open spec fn no_feed_id_message() -> Seq<char> {
    "new items API success(es) without a feed ID"@
}

/// The first step of a submission of `n_items` items with a pause of
/// `sleep_ms` milliseconds between the calls. A pause under five
/// milliseconds is refused; with no items there is no call to learn the
/// feed's identifier from, which is an illegal result.
pub open spec fn begun(n_items: usize, sleep_ms: u64) -> BatchStepView {
    if sleep_ms < MIN_SLEEP_MS {
        BatchStepView::Done(Err(KindView::IllegalParameter(sleep_message(sleep_ms))))
    } else if n_items == 0 {
        BatchStepView::Done(Err(KindView::IllegalResult(no_feed_id_message())))
    } else {
        let first = chunk_after(n_items as nat, 0);
        BatchStepView::Submit {
            submission: BatchView {
                total: n_items as nat,
                sleep_ms,
                submitted: first.end as nat,
                feed_id: None,
            },
            chunk: first,
            pause_ms: None,
        }
    }
}

/// The step that follows when the chunk handed out last was answered with
/// `response`: the feed identifier that the call returned, or its error.
///
/// An error ends the submission at once. The first identifier returned is
/// the one that counts; those of later calls are not looked at. While items
/// are left, the next chunk follows after a pause; after the last chunk the
/// submission is done, without a pause.
pub open spec fn advanced(
    submission: BatchView,
    response: Result<Seq<char>, KindView>,
) -> BatchStepView {
    match response {
        Err(error) => BatchStepView::Done(Err(error)),
        Ok(returned) => {
            let feed_id = match submission.feed_id {
                Some(first) => first,
                None => returned,
            };
            if submission.submitted < submission.total {
                let next = chunk_after(submission.total, submission.submitted);
                BatchStepView::Submit {
                    submission: BatchView {
                        total: submission.total,
                        sleep_ms: submission.sleep_ms,
                        submitted: next.end as nat,
                        feed_id: Some(feed_id),
                    },
                    chunk: next,
                    pause_ms: Some(submission.sleep_ms),
                }
            } else {
                BatchStepView::Done(Ok(feed_id))
            }
        },
    }
}

/// What a response says to a submission: the feed's identifier, or the
/// error of the call.
pub open spec fn response_view(response: Result<NewInputItemsResponse, Error>) -> Result<
    Seq<char>,
    KindView,
> {
    match response {
        Ok(r) => Ok(r.feed_id@),
        Err(error) => Err(error@),
    }
}

/// The chunk that comes next when `submitted` of `total` items are out.
fn next_chunk(total: usize, submitted: usize) -> (chunk: Chunk)
    requires
        submitted < total,
    ensures
        chunk == chunk_after(total as nat, submitted as nat),
{
    let end: usize = if total - submitted > MAX_ITEMS_PER_CALL {
        submitted + MAX_ITEMS_PER_CALL
    } else {
        total
    };
    Chunk { start: submitted, end }
}

impl BatchSubmission {
    /// Begins the submission of `n_items` items with a pause of `sleep_ms`
    /// milliseconds between the calls.
    pub fn begin(n_items: usize, sleep_ms: u64) -> (step: BatchStep)
        ensures
            step@ == begun(n_items, sleep_ms),
            step@ matches BatchStepView::Submit { submission, .. } ==> submission.well_formed(),
    {
        if sleep_ms < MIN_SLEEP_MS {
            let mut msg = String::from_str("sleep_ms (");
            push_decimal(&mut msg, sleep_ms);
            msg.append(") must be 5 or more");
            return BatchStep::Done(Err(Error { kind: Kind::IllegalParameter(msg) }));
        }
        if n_items == 0 {
            let msg = String::from_str("new items API success(es) without a feed ID");
            return BatchStep::Done(Err(Error { kind: Kind::IllegalResult(msg) }));
        }
        let chunk = next_chunk(n_items, 0);
        BatchStep::Submit {
            submission: BatchSubmission {
                total: n_items,
                sleep_ms,
                submitted: chunk.end,
                feed_id: None,
            },
            chunk,
            pause_ms: None,
        }
    }

    /// Takes the response of the chunk that was handed out last and gives
    /// the step that follows.
    pub fn advance(self, response: Result<NewInputItemsResponse, Error>) -> (step: BatchStep)
        ensures
            step@ == advanced(self@, response_view(response)),
            self@.well_formed() ==> (step@ matches BatchStepView::Submit { submission, .. }
                ==> submission.well_formed()),
    {
        match response {
            Err(error) => BatchStep::Done(Err(error)),
            Ok(returned) => {
                let feed_id = match self.feed_id {
                    Some(first) => first,
                    None => returned.feed_id,
                };
                if self.submitted < self.total {
                    let chunk = next_chunk(self.total, self.submitted);
                    BatchStep::Submit {
                        submission: BatchSubmission {
                            total: self.total,
                            sleep_ms: self.sleep_ms,
                            submitted: chunk.end,
                            feed_id: Some(feed_id),
                        },
                        chunk,
                        pause_ms: Some(self.sleep_ms),
                    }
                } else {
                    BatchStep::Done(Ok(feed_id))
                }
            },
        }
    }
}

/// The number of calls that `total` items go out in.
pub open spec fn chunk_count(total: nat) -> nat {
    (total + 9) / 10
}

/// The chunks that `total` items go out in, in order: each holds the ten
/// items behind the one before it, the last one what is left.
pub open spec fn chunk_plan(total: nat) -> Seq<Chunk> {
    Seq::new(chunk_count(total), |k: int| chunk_after(total, (10 * k) as nat))
}

/// A response as a submission reads it: the feed's identifier that the call
/// returned, or the error of the call.
pub type Answer = Result<Seq<char>, KindView>;

/// What a submission does from one of its steps on.
pub struct Run {
    /// The chunks that are submitted, in order.
    pub chunks: Seq<Chunk>,
    /// The pause that is taken before each of them.
    pub pauses: Seq<Option<u64>>,
    /// How the submission ends. `None` while a chunk is out whose response
    /// is not known.
    pub outcome: Option<Answer>,
}

/// What a submission does from `step` on when its calls are answered by
/// `responses`, one after the other.
pub open spec fn run(step: BatchStepView, responses: Seq<Answer>) -> Run
    decreases responses.len(),
{
    match step {
        BatchStepView::Done(outcome) => Run {
            chunks: Seq::empty(),
            pauses: Seq::empty(),
            outcome: Some(outcome),
        },
        BatchStepView::Submit { submission, chunk, pause_ms } => if responses.len() == 0 {
            Run { chunks: seq![chunk], pauses: seq![pause_ms], outcome: None }
        } else {
            let rest = run(advanced(submission, responses[0]), responses.skip(1));
            Run {
                chunks: seq![chunk] + rest.chunks,
                pauses: seq![pause_ms] + rest.pauses,
                outcome: rest.outcome,
            }
        },
    }
}

/// How a run ends after `successes` calls that succeeded: with the first
/// identifier where those were all the calls, with the error of the call
/// behind them where there is one, and not yet where the responses end.
pub open spec fn outcome_after(responses: Seq<Answer>, successes: nat, calls: nat) -> Option<
    Answer,
> {
    if successes == calls {
        Some(Ok(responses[0]->Ok_0))
    } else if successes < responses.len() {
        Some(Err(responses[successes as int]->Err_0))
    } else {
        None
    }
}

/// The chunks of the plan are whole: the `k`-th starts at item `10 * k`,
/// holds at least one item and at most ten, ends where the next one starts,
/// and the last one ends with the last item.
pub proof fn lemma_chunk_plan(total: nat)
    requires
        total <= usize::MAX,
    ensures
        chunk_plan(total).len() == chunk_count(total),
        forall|k: int|
            0 <= k < chunk_count(total) ==> {
                let chunk = #[trigger] chunk_plan(total)[k];
                &&& chunk.start == 10 * k
                &&& chunk.start < chunk.end <= total
                &&& chunk.end - chunk.start <= MAX_ITEMS_PER_CALL
                &&& k + 1 < chunk_count(total) ==> chunk.end == chunk.start + MAX_ITEMS_PER_CALL
                &&& k + 1 == chunk_count(total) ==> chunk.end == total
            },
{
}

/// From a step that submits the `j`-th chunk of the plan on, a submission
/// goes through the chunks of the plan, with the pause before each chunk
/// but the one at hand, until a call fails or the plan ends.
proof fn lemma_run_from(
    submission: BatchView,
    chunk: Chunk,
    pause_ms: Option<u64>,
    responses: Seq<Answer>,
    successes: int,
    j: int,
)
    requires
        submission.well_formed(),
        0 <= successes,
        0 <= j < chunk_count(submission.total),
        chunk == chunk_plan(submission.total)[j],
        submission.submitted == chunk.end,
        successes <= chunk_count(submission.total) - j,
        successes <= responses.len(),
        forall|i: int| 0 <= i < successes ==> responses[i] is Ok,
        successes < chunk_count(submission.total) - j ==> (responses.len() == successes
            || responses[successes] is Err),
    ensures
        ({
            let calls = chunk_count(submission.total) as int;
            let r = run(BatchStepView::Submit { submission, chunk, pause_ms }, responses);
            let last = if j + successes < calls {
                j + successes + 1
            } else {
                calls
            };
            &&& r.chunks == chunk_plan(submission.total).subrange(j, last)
            &&& r.pauses.len() == r.chunks.len()
            &&& r.pauses[0] == pause_ms
            &&& forall|i: int|
                1 <= i < r.pauses.len() ==> #[trigger] r.pauses[i] == Some(submission.sleep_ms)
            &&& successes == calls - j ==> r.outcome == Some(
                Ok::<Seq<char>, KindView>(
                    match submission.feed_id {
                        Some(first) => first,
                        None => responses[0]->Ok_0,
                    },
                ),
            )
            &&& successes < calls - j ==> r.outcome == if successes < responses.len() {
                Some(Err::<Seq<char>, KindView>(responses[successes]->Err_0))
            } else {
                None
            }
        }),
    decreases responses.len(),
{
    let r = run(BatchStepView::Submit { submission, chunk, pause_ms }, responses);
    lemma_chunk_plan(submission.total);
    if responses.len() > 0 {
        let next = advanced(submission, responses[0]);
        let rest = run(next, responses.skip(1));
        match next {
            BatchStepView::Done(_) => {},
            BatchStepView::Submit { submission: after, chunk: following, pause_ms: pause } => {
                lemma_run_from(
                    after,
                    following,
                    pause,
                    responses.skip(1),
                    successes - 1,
                    j + 1,
                );
                assert forall|i: int| 1 <= i < r.pauses.len() implies #[trigger] r.pauses[i]
                    == Some(submission.sleep_ms) by {
                    assert(r.pauses[i] == rest.pauses[i - 1]);
                }
            },
        }
    }
}

/// A submission of `n_items` items goes through the chunks of the plan, one
/// call each, in order and with the pause between two calls and nowhere
/// else. It stops behind the first call that fails, with that error. Where
/// every call succeeds it makes as many calls as the plan has chunks and
/// ends with the identifier that the first call returned.
///
/// `successes` is the number of calls that succeed before a call fails, the
/// plan ends or `responses` does.
pub proof fn lemma_submission_follows_plan(
    n_items: usize,
    sleep_ms: u64,
    responses: Seq<Answer>,
    successes: nat,
)
    requires
        n_items > 0,
        sleep_ms >= MIN_SLEEP_MS,
        successes <= chunk_count(n_items as nat),
        successes <= responses.len(),
        forall|i: int| 0 <= i < successes ==> responses[i] is Ok,
        successes < chunk_count(n_items as nat) ==> (responses.len() == successes
            || responses[successes as int] is Err),
    ensures
        ({
            let calls = chunk_count(n_items as nat);
            let r = run(begun(n_items, sleep_ms), responses);
            let made = if successes < calls {
                successes as int + 1
            } else {
                calls as int
            };
            &&& r.chunks == chunk_plan(n_items as nat).take(made)
            &&& r.pauses.len() == made
            &&& r.pauses[0] == None::<u64>
            &&& forall|i: int| 1 <= i < made ==> #[trigger] r.pauses[i] == Some(sleep_ms)
            &&& r.outcome == outcome_after(responses, successes, calls)
        }),
{
    let total = n_items as nat;
    lemma_chunk_plan(total);
    let first = chunk_after(total, 0);
    let submission = BatchView { total, sleep_ms, submitted: first.end as nat, feed_id: None };
    lemma_run_from(submission, first, None, responses, successes as int, 0);
}

} // verus!

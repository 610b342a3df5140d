//! A batch of requests, worked off one after the other.
//!
//! The requests of a batch are taken up in the order in which they came.
//! A request is taken up when the one before it has reported, whether that
//! report was one of success or of failure: no request keeps another from
//! its turn. When no request is left, the batch rests.

use vstd::prelude::*;

use crate::imaging::{generate_uuid, is_hyphenated};
use crate::model::{WorkerRequest, WorkerRequestView};
use crate::pipeline::{
    begin, fails, lemma_begin_resolves, lemma_next_advances, lemma_next_reports,
    lemma_next_resolves, next, Action, ActionView, Event, EventView, Run, RunView, STATUS_OK,
};
use crate::settings::{Config, ConfigView};

verus! {

/// A batch at work.
#[derive(Clone, Debug, PartialEq, Eq)]
pub struct Batch {
    pub config: Config,
    /// The requests that have not been taken up, in their order.
    pub pending: Vec<WorkerRequest>,
    /// The request that was taken up last, as far as it has come.
    pub current: Option<Run>,
}

pub struct BatchView {
    pub config: ConfigView,
    pub pending: Seq<WorkerRequestView>,
    pub current: Option<RunView>,
}

impl View for Batch {
    type V = BatchView;

    open spec fn view(&self) -> BatchView {
        BatchView {
            config: self.config@,
            pending: self.pending.deep_view(),
            current: self.current.deep_view(),
        }
    }
}

/// One answer from outside, and the identifier that names the picture if
/// one is uploaded on this answer.
pub struct Input {
    pub event: EventView,
    pub fresh: Seq<char>,
}

impl BatchView {
    /// Whether a request is at work: taken up and not over.
    pub open spec fn busy(self) -> bool {
        self.current is Some && !self.current->Some_0.over()
    }

    /// How many requests of the batch have not reported yet.
    pub open spec fn outstanding(self) -> nat {
        self.pending.len() + if self.busy() {
            1nat
        } else {
            0nat
        }
    }

    /// What holds of every batch that [`open`] made and [`take`] took
    /// further: the request at work is in a sound run.
    pub open spec fn sound(self) -> bool {
        self.current is Some ==> self.current->Some_0.sound()
    }

    /// How many answers, at most, the batch still takes before all its
    /// requests have reported and it rests.
    pub open spec fn distance(self) -> nat {
        11 * self.pending.len() + match self.current {
            Some(run) => run.phase.distance() + 1,
            None => 0,
        }
    }

    /// Whether the answer that comes next may call for a name for a
    /// picture: the request at work waits for its picture's download.
    pub open spec fn names_upload(self) -> bool {
        self.current is Some && self.current->Some_0.phase is AwaitDownload
    }

    /// Whether the batch rests: nothing is pending and nothing is at
    /// work.
    pub open spec fn resting(self) -> bool {
        self.pending.len() == 0 && self.current is None
    }
}

/// The next request is taken up, if there is one; if there is none, the
/// batch rests.
pub open spec fn turn(batch: BatchView) -> (BatchView, ActionView) {
    if batch.pending.len() == 0 {
        (BatchView { current: None, ..batch }, ActionView::Rest)
    } else {
        let (run, action) = begin(batch.pending[0]);
        (
            BatchView {
                config: batch.config,
                pending: batch.pending.drop_first(),
                current: Some(run),
            },
            action,
        )
    }
}

/// A batch of `requests` and its first action.
pub open spec fn open(config: ConfigView, requests: Seq<WorkerRequestView>) -> (
    BatchView,
    ActionView,
) {
    turn(BatchView { config, pending: requests, current: None })
}

/// The batch after the answer `event`, and what is to be done next. The
/// answer belongs to the request at work. Where none is at work, the answer
/// is the news of a report's sending, which changes nothing, and the next
/// request has its turn.
pub open spec fn take(batch: BatchView, event: EventView, fresh: Seq<char>) -> (
    BatchView,
    ActionView,
) {
    if batch.busy() {
        let (run, action) = next(batch.current->Some_0, event, batch.config, fresh);
        (BatchView { current: Some(run), ..batch }, action)
    } else {
        turn(batch)
    }
}

/// The batch after a sequence of answers.
pub open spec fn after(batch: BatchView, inputs: Seq<Input>) -> BatchView
    decreases inputs.len(),
{
    if inputs.len() == 0 {
        batch
    } else {
        after(take(batch, inputs[0].event, inputs[0].fresh).0, inputs.drop_first())
    }
}

/// The actions that a sequence of answers brings, one for each answer.
pub open spec fn actions(batch: BatchView, inputs: Seq<Input>) -> Seq<ActionView>
    decreases inputs.len(),
{
    if inputs.len() == 0 {
        Seq::empty()
    } else {
        let (then, action) = take(batch, inputs[0].event, inputs[0].fresh);
        seq![action] + actions(then, inputs.drop_first())
    }
}

/// How many of the actions send a report.
pub open spec fn reports(actions: Seq<ActionView>) -> nat
    decreases actions.len(),
{
    if actions.len() == 0 {
        0
    } else {
        reports(actions.drop_first()) + if actions[0] is Notify {
            1nat
        } else {
            0nat
        }
    }
}

/// How many of the actions send a report of success.
pub open spec fn successes(actions: Seq<ActionView>) -> nat
    decreases actions.len(),
{
    if actions.len() == 0 {
        0
    } else {
        successes(actions.drop_first()) + if actions[0] is Notify
            && actions[0]->response.status_code == STATUS_OK {
            1nat
        } else {
            0nat
        }
    }
}

/// How many of the actions send a report of a failure.
pub open spec fn failures(actions: Seq<ActionView>) -> nat
    decreases actions.len(),
{
    if actions.len() == 0 {
        0
    } else {
        failures(actions.drop_first()) + if actions[0] is Notify
            && actions[0]->response.status_code != STATUS_OK {
            1nat
        } else {
            0nat
        }
    }
}

/// Whether a request fails as the batch takes the answer `event`: the
/// request at work fails in its stage, or the request that has its turn
/// cannot be taken up for want of a key.
pub open spec fn fails_on(batch: BatchView, event: EventView) -> bool {
    if batch.busy() {
        fails(batch.current->Some_0, event)
    } else {
        batch.pending.len() > 0 && batch.pending[0].identity() is None
    }
}

/// How many requests fail while the batch takes the answers `inputs`.
pub open spec fn failed(batch: BatchView, inputs: Seq<Input>) -> nat
    decreases inputs.len(),
{
    if inputs.len() == 0 {
        0
    } else {
        failed(take(batch, inputs[0].event, inputs[0].fresh).0, inputs.drop_first())
            + if fails_on(batch, inputs[0].event) {
            1nat
        } else {
            0nat
        }
    }
}

/// One answer: the batch stays sound; a report is sent exactly when a
/// request leaves the outstanding ones, and it is a report of failure
/// exactly when a request failed on this answer.
pub proof fn lemma_take(batch: BatchView, event: EventView, fresh: Seq<char>)
    requires
        batch.sound(),
    ensures
        ({
            let (then, action) = take(batch, event, fresh);
            &&& then.sound()
            &&& then.config == batch.config
            &&& then.outstanding() + reports(seq![action]) == batch.outstanding()
            &&& failures(seq![action]) == if fails_on(batch, event) {
                1nat
            } else {
                0nat
            }
            &&& successes(seq![action]) + failures(seq![action]) == reports(seq![action])
            &&& !batch.resting() ==> then.distance() < batch.distance()
            &&& batch.resting() ==> then == batch && action is Rest
        }),
{
    let (then, action) = take(batch, event, fresh);
    let one = seq![action];
    assert(one.drop_first() == Seq::<ActionView>::empty());
    assert(reports(one.drop_first()) == 0);
    assert(successes(one.drop_first()) == 0);
    assert(failures(one.drop_first()) == 0);
    if batch.busy() {
        let run = batch.current->Some_0;
        lemma_next_resolves(run, event, batch.config, fresh);
        lemma_next_reports(run, event, batch.config, fresh);
        lemma_next_advances(run, event, batch.config, fresh);
    } else if batch.pending.len() > 0 {
        lemma_begin_resolves(batch.pending[0]);
    } else {
        assert(batch.resting() ==> then == batch);
    }
}

/// Counting goes through concatenation.
pub proof fn lemma_counts_concat(first: Seq<ActionView>, rest: Seq<ActionView>)
    ensures
        reports(first + rest) == reports(first) + reports(rest),
        successes(first + rest) == successes(first) + successes(rest),
        failures(first + rest) == failures(first) + failures(rest),
    decreases first.len(),
{
    if first.len() == 0 {
        assert(first + rest == rest);
    } else {
        lemma_counts_concat(first.drop_first(), rest);
        assert((first + rest).drop_first() == first.drop_first() + rest);
        assert((first + rest)[0] == first[0]);
    }
}

/// Whatever answers come in: the batch stays sound, each report that is
/// sent takes one request off the outstanding ones, as many reports are of
/// failure as requests failed, and all other reports are of success.
pub proof fn lemma_run(batch: BatchView, inputs: Seq<Input>)
    requires
        batch.sound(),
    ensures
        after(batch, inputs).sound(),
        after(batch, inputs).outstanding() + reports(actions(batch, inputs))
            == batch.outstanding(),
        failures(actions(batch, inputs)) == failed(batch, inputs),
        successes(actions(batch, inputs)) + failures(actions(batch, inputs)) == reports(
            actions(batch, inputs),
        ),
        actions(batch, inputs).len() == inputs.len(),
        inputs.len() >= batch.distance() ==> after(batch, inputs).outstanding() == 0,
    decreases inputs.len(),
{
    if inputs.len() > 0 {
        let (then, action) = take(batch, inputs[0].event, inputs[0].fresh);
        lemma_take(batch, inputs[0].event, inputs[0].fresh);
        lemma_run(then, inputs.drop_first());
        lemma_counts_concat(seq![action], actions(then, inputs.drop_first()));
    }
}

/// Every request of a batch is reported on exactly once. However the
/// answers fall, no more reports are sent than the batch has requests; and
/// once the batch has taken eleven answers for each request, or has no
/// request outstanding before that, exactly as many reports have been sent
/// as the batch has requests: one of failure for each request that failed,
/// one of success for each of the others.
pub proof fn lemma_every_request_is_reported(
    config: ConfigView,
    requests: Seq<WorkerRequestView>,
    inputs: Seq<Input>,
)
    ensures
        ({
            let (batch, first) = open(config, requests);
            let sent = seq![first] + actions(batch, inputs);
            let fell = failed(batch, inputs) + if requests.len() > 0 && requests[0].identity()
                is None {
                1nat
            } else {
                0nat
            };
            &&& reports(sent) <= requests.len()
            &&& failures(sent) == fell
            &&& successes(sent) + failures(sent) == reports(sent)
            &&& inputs.len() >= 11 * requests.len() || after(batch, inputs).outstanding() == 0
                ==> {
                &&& reports(sent) == requests.len()
                &&& failures(sent) == fell
                &&& successes(sent) == requests.len() - fell
            }
        }),
{
    let start = BatchView { config, pending: requests, current: None };
    let (batch, first) = open(config, requests);
    assert(start.sound());
    // Opening is what any answer does to a batch in which nothing is at work.
    let any = EventView::Sent;
    assert(take(start, any, Seq::empty()) == open(config, requests));
    lemma_take(start, any, Seq::empty());
    lemma_run(batch, inputs);
    lemma_counts_concat(seq![first], actions(batch, inputs));
    if requests.len() == 0 {
        assert(batch.distance() == 0);
    } else {
        assert(batch.distance() < start.distance());
    }
}

impl Batch {
    /// Whether the batch rests.
    pub fn is_resting(&self) -> (resting: bool)
        ensures
            resting == self@.resting(),
    {
        self.pending.len() == 0 && self.current.is_none()
    }

    /// The next request is taken up: see [`turn`].
    fn turn(config: Config, pending: Vec<WorkerRequest>) -> (out: (Batch, Action))
        ensures
            (out.0@, out.1@) == turn(
                BatchView { config: config@, pending: pending.deep_view(), current: None },
            ),
    {
        let mut pending = pending;
        let ghost before = pending.deep_view();
        if pending.len() == 0 {
            (Batch { config, pending, current: None }, Action::Rest)
        } else {
            let request = pending.remove(0);
            assert(pending.deep_view() =~= before.drop_first());
            let (run, action) = Run::start(request);
            (Batch { config, pending, current: Some(run) }, action)
        }
    }

    /// Takes up a batch of requests: see [`open`].
    pub fn start(config: Config, requests: Vec<WorkerRequest>) -> (out: (Batch, Action))
        ensures
            (out.0@, out.1@) == open(config@, requests.deep_view()),
    {
        Batch::turn(config, requests)
    }

    /// Takes the answer `event`: see [`take`]. `fresh` names the picture if
    /// one is uploaded now.
    pub fn step_with(self, event: Event, fresh: &str) -> (out: (Batch, Action))
        ensures
            (out.0@, out.1@) == take(self@, event@, fresh@),
    {
        let ghost before = self@;
        let Batch { config, pending, current } = self;
        match current {
            Some(run) => {
                if run.is_over() {
                    let out = Batch::turn(config, pending);
                    assert(turn(before) == turn(BatchView { current: None, ..before }));
                    out
                } else {
                    let (run, action) = run.step_with(event, &config, fresh);
                    (Batch { config, pending, current: Some(run) }, action)
                }
            },
            None => Batch::turn(config, pending),
        }
    }

    /// Takes the answer `event`: see [`take`]. A picture that is uploaded now
    /// gets a fresh random identifier for its name.
    pub fn step(self, event: Event) -> (out: (Batch, Action))
        ensures
            exists|fresh: Seq<char>| #[trigger]
                is_hyphenated(fresh) == self@.names_upload() && (out.0@, out.1@) == take(
                    self@,
                    event@,
                    fresh,
                ),
    {
        let names = match &self.current {
            Some(run) => run.awaits_download(),
            None => false,
        };
        let fresh = if names {
            generate_uuid()
        } else {
            String::new()
        };
        assert(is_hyphenated(fresh@) == self@.names_upload());
        self.step_with(event, fresh.as_str())
    }
}

} // verus!

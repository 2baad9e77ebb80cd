//! One pass of the result poller over the keys that a scan gave.

use vstd::prelude::*;
use crate::poller::{
    job_start, job_step, lemma_step_nears_end, lemma_steps_left, steps_left, Disposition,
    MarkerJob, MarkerJobView, PollAction, PollActionView, PollEvent, PollEventView, Progress,
    ProgressView,
};

verus! {

/// Where a pass stands.
#[derive(Clone, Debug, PartialEq, Eq)]
pub enum PassState {
    /// A key is being worked on.
    Working { job: MarkerJob },
    /// The pass is over: `aborted` if a marker out of shape ended it.
    Ended { aborted: bool },
}

/// A `PassState` as a mathematical value.
pub enum PassStateView {
    Working { job: MarkerJobView },
    Ended { aborted: bool },
}

impl View for PassState {
    type V = PassStateView;

    open spec fn view(&self) -> PassStateView {
        match *self {
            PassState::Working { job } => PassStateView::Working { job: job@ },
            PassState::Ended { aborted } => PassStateView::Ended { aborted },
        }
    }
}

/// One pass: the keys of a scan, taken one after the other.
#[derive(Clone, Debug, PartialEq, Eq)]
pub struct Pass {
    /// The keys that the scan gave, in its order.
    pub keys: Vec<String>,
    /// How many of them have been taken up.
    pub taken: usize,
    pub state: PassState,
}

/// A `Pass` as a mathematical value.
pub struct PassView {
    pub keys: Seq<Seq<char>>,
    pub taken: nat,
    pub state: PassStateView,
}

/// The keys of `keys`, each as a sequence of characters.
pub open spec fn keys_view(keys: Seq<String>) -> Seq<Seq<char>> {
    Seq::new(keys.len(), |i: int| keys[i]@)
}

impl View for Pass {
    type V = PassView;

    open spec fn view(&self) -> PassView {
        PassView { keys: keys_view(self.keys@), taken: self.taken as nat, state: self.state@ }
    }
}

/// The pass takes up its next key, or ends where none is left.
pub open spec fn pass_take(keys: Seq<Seq<char>>, taken: nat) -> (PassView, PollActionView) {
    if taken < keys.len() {
        (
            PassView {
                keys,
                taken: taken + 1,
                state: PassStateView::Working { job: job_start(keys[taken as int]) },
            },
            PollActionView::FetchValue { key: keys[taken as int] },
        )
    } else {
        (
            PassView { keys, taken, state: PassStateView::Ended { aborted: false } },
            PollActionView::EndPass { aborted: false },
        )
    }
}

/// One step of a pass: where it stands after `event`, and what is asked
/// for next.
///
/// While a key is being worked on, the step is that of the work on it. When
/// that work has ended, the next event, whatever it is, moves the pass on:
/// to the next key; to its end where no key is left; and to its end at
/// once, with the keys that are left untouched, where the marker was out of
/// shape.
pub open spec fn pass_step(pass: PassView, event: PollEventView) -> (PassView, PollActionView) {
    match pass.state {
        PassStateView::Working { job } => match job.progress {
            ProgressView::Finished { disposition } => if disposition is Malformed {
                (
                    PassView {
                        keys: pass.keys,
                        taken: pass.taken,
                        state: PassStateView::Ended { aborted: true },
                    },
                    PollActionView::EndPass { aborted: true },
                )
            } else {
                pass_take(pass.keys, pass.taken)
            },
            _ => (
                PassView {
                    keys: pass.keys,
                    taken: pass.taken,
                    state: PassStateView::Working { job: job_step(job, event).0 },
                },
                job_step(job, event).1,
            ),
        },
        PassStateView::Ended { aborted } => (pass, PollActionView::EndPass { aborted }),
    }
}

fn take(keys: Vec<String>, taken: usize) -> (next: (Pass, PollAction))
    ensures
        (next.0@, next.1@) == pass_take(keys_view(keys@), taken as nat),
{
    if taken < keys.len() {
        let (job, action) = MarkerJob::start(keys[taken].clone());
        (Pass { keys, taken: taken + 1, state: PassState::Working { job } }, action)
    } else {
        (
            Pass { keys, taken, state: PassState::Ended { aborted: false } },
            PollAction::EndPass { aborted: false },
        )
    }
}

impl Pass {
    /// Begins a pass over `keys`, the keys that a scan of the store for
    /// completion markers gave.
    pub fn begin(keys: Vec<String>) -> (next: (Pass, PollAction))
        ensures
            (next.0@, next.1@) == pass_take(keys_view(keys@), 0),
    {
        take(keys, 0)
    }

    /// Takes what came of the last action and says what is to be done
    /// next.
    pub fn advance(self, event: PollEvent) -> (next: (Pass, PollAction))
        ensures
            (next.0@, next.1@) == pass_step(self@, event@),
    {
        let Pass { keys, taken, state } = self;
        match state {
            PassState::Working { job } => {
                let ended = match &job.progress {
                    Progress::Finished { disposition } => Some(*disposition),
                    _ => None,
                };
                match ended {
                    Some(Disposition::Malformed(_)) => (
                        Pass { keys, taken, state: PassState::Ended { aborted: true } },
                        PollAction::EndPass { aborted: true },
                    ),
                    Some(_) => take(keys, taken),
                    None => {
                        let (job, action) = job.advance(event);
                        (Pass { keys, taken, state: PassState::Working { job } }, action)
                    },
                }
            },
            PassState::Ended { aborted } => (
                Pass { keys, taken, state: PassState::Ended { aborted } },
                PollAction::EndPass { aborted },
            ),
        }
    }

    /// Whether the pass is over.
    pub fn is_over(&self) -> (over: bool)
        ensures
            over == (self@.state is Ended),
    {
        match &self.state {
            PassState::Ended { .. } => true,
            _ => false,
        }
    }
}

/// A pass that is over stays over, and asks for nothing more.
pub proof fn lemma_ended_pass_stays_ended(pass: PassView, event: PollEventView)
    requires
        pass.state is Ended,
    ensures
        pass_step(pass, event).0 == pass,
        pass_step(pass, event).1 is EndPass,
{
}

/// A marker out of shape ends the pass: once the work on a key has ended
/// so, the next step ends the pass as aborted, and takes up no further key.
pub proof fn lemma_malformed_marker_ends_pass(pass: PassView, event: PollEventView)
    requires
        pass.state matches PassStateView::Working { job } && job.progress
            matches ProgressView::Finished { disposition } && disposition is Malformed,
    ensures
        pass_step(pass, event).0.state == (PassStateView::Ended { aborted: true }),
        pass_step(pass, event).0.taken == pass.taken,
        pass_step(pass, event).1 == (PollActionView::EndPass { aborted: true }),
{
}

/// A pass takes the keys up in the order of the scan, each once: a step
/// asks for the value of a key only to take up the first key that was not
/// taken up before.
pub proof fn lemma_keys_in_order(pass: PassView, event: PollEventView)
    requires
        pass_step(pass, event).1 is FetchValue,
    ensures
        pass.taken < pass.keys.len(),
        pass_step(pass, event).1 == (PollActionView::FetchValue {
            key: pass.keys[pass.taken as int],
        }),
        pass_step(pass, event).0.taken == pass.taken + 1,
{
    match pass.state {
        PassStateView::Working { job } => {
            if !(job.progress is Finished) {
                lemma_job_never_fetches(job, event);
            }
        },
        PassStateView::Ended { .. } => {},
    }
}

/// The work on a key asks for its value once, at its start, and never
/// again.
pub proof fn lemma_job_never_fetches(job: MarkerJobView, event: PollEventView)
    ensures
        !(job_step(job, event).1 is FetchValue),
        !(job_step(job, event).1 is EndPass),
{
}

/// Where a pass stands after `events`, from where `pass` stands.
pub open spec fn pass_after(pass: PassView, events: Seq<PollEventView>) -> PassView
    decreases events.len(),
{
    if events.len() == 0 {
        pass
    } else {
        pass_step(pass_after(pass, events.drop_last()), events.last()).0
    }
}

/// The most steps that a pass may still take, from where it stands: ten for
/// each key that is not taken up yet, and what the key at hand may still
/// take.
pub open spec fn pass_steps_left(pass: PassView) -> nat {
    match pass.state {
        PassStateView::Working { job } => steps_left(job.progress) + 1 + if pass.taken
            < pass.keys.len() {
            10 * (pass.keys.len() - pass.taken) as nat
        } else {
            0
        },
        PassStateView::Ended { .. } => 0,
    }
}

/// Every step brings a pass nearer to its end.
pub proof fn lemma_pass_step_nears_end(pass: PassView, event: PollEventView)
    ensures
        pass.state is Ended ==> pass_step(pass, event).0 == pass,
        !(pass.state is Ended) ==> pass_steps_left(pass_step(pass, event).0) < pass_steps_left(
            pass,
        ),
{
    match pass.state {
        PassStateView::Working { job } => {
            lemma_step_nears_end(job, event);
            lemma_steps_left(job.progress);
            lemma_steps_left(job_start(job.key).progress);
            if pass.taken < pass.keys.len() {
                lemma_steps_left(job_start(pass.keys[pass.taken as int]).progress);
            }
        },
        PassStateView::Ended { .. } => {},
    }
}

/// A pass always ends: whatever comes in, a pass over `n` keys is over
/// after ten events for each key.
pub proof fn lemma_pass_ends(keys: Seq<Seq<char>>, events: Seq<PollEventView>)
    requires
        events.len() >= 10 * keys.len(),
    ensures
        pass_after(pass_take(keys, 0).0, events).state is Ended,
{
    let start = pass_take(keys, 0).0;
    lemma_pass_run_nears_end(start, events);
    if keys.len() > 0 {
        lemma_steps_left(job_start(keys[0]).progress);
    }
}

proof fn lemma_pass_run_nears_end(pass: PassView, events: Seq<PollEventView>)
    ensures
        pass_steps_left(pass_after(pass, events)) + events.len() <= pass_steps_left(pass)
            || pass_after(pass, events).state is Ended,
    decreases events.len(),
{
    if events.len() > 0 {
        lemma_pass_run_nears_end(pass, events.drop_last());
        lemma_pass_step_nears_end(pass_after(pass, events.drop_last()), events.last());
    }
}

} // verus!

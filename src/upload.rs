//! The upload run: which batch to send next, and what a server response does
//! to the run. Sending is left to the caller, which performs each requested
//! send and reports the outcome back.

use vstd::prelude::*;
use crate::batch::{Batch, ceil_div, get_iteration, spec_batch, lemma_ceil_div_bound};

verus! {

/// Where an upload run stands.
#[derive(Clone, Debug)]
pub enum UploadState {
    /// Waiting for the response to batch `sequence_number`.
    Sending,
    /// Every batch was accepted.
    Completed,
    /// A batch was refused; holds the server's error text. No further batch
    /// is sent.
    Aborted { error: String },
    /// There were no records: nothing is sent.
    Rejected,
}

/// Mathematical form of [`UploadState`].
pub enum StateView {
    Sending,
    Completed,
    Aborted { error: Seq<char> },
    Rejected,
}

impl View for UploadState {
    type V = StateView;

    open spec fn view(&self) -> StateView {
        match self {
            UploadState::Sending => StateView::Sending,
            UploadState::Completed => StateView::Completed,
            UploadState::Aborted { error } => StateView::Aborted { error: error@ },
            UploadState::Rejected => StateView::Rejected,
        }
    }
}

/// One run of uploading `total` records in batches of `batch_size`.
pub struct UploadRun {
    pub total: usize,
    pub batch_size: usize,
    /// 1-based number of the batch in flight (or the last one sent).
    pub sequence_number: usize,
    /// How many batches have been handed to the transport so far.
    pub attempted: usize,
    pub state: UploadState,
}

/// Mathematical form of [`UploadRun`].
pub struct RunView {
    pub total: int,
    pub batch_size: int,
    pub sequence_number: int,
    pub attempted: int,
    pub state: StateView,
}

impl View for UploadRun {
    type V = RunView;

    open spec fn view(&self) -> RunView {
        RunView {
            total: self.total as int,
            batch_size: self.batch_size as int,
            sequence_number: self.sequence_number as int,
            attempted: self.attempted as int,
            state: self.state@,
        }
    }
}

/// The run as it stands before any batch is sent.
pub open spec fn start_spec(total: int, batch_size: int) -> RunView {
    RunView {
        total,
        batch_size,
        sequence_number: if total == 0 { 0 } else { 1 },
        attempted: 0,
        state: if total == 0 { StateView::Rejected } else { StateView::Sending },
    }
}

/// The run after the response to the batch in flight: accepted, or refused
/// with `error`.
pub open spec fn step_spec(r: RunView, accepted: bool, error: Seq<char>) -> RunView {
    if !accepted {
        RunView { attempted: r.attempted + 1, state: StateView::Aborted { error }, ..r }
    } else if r.sequence_number < ceil_div(r.total, r.batch_size) {
        RunView {
            attempted: r.attempted + 1,
            sequence_number: r.sequence_number + 1,
            state: StateView::Sending,
            ..r
        }
    } else {
        RunView { attempted: r.attempted + 1, state: StateView::Completed, ..r }
    }
}

/// The batch that the run asks to send now, if any.
pub open spec fn pending_spec(r: RunView) -> Option<Batch> {
    if r.state is Sending {
        Some(spec_batch(r.total, r.batch_size, r.sequence_number))
    } else {
        None
    }
}

impl RunView {
    /// The run's bookkeeping agrees with its state.
    pub open spec fn wf(self) -> bool {
        &&& self.batch_size > 0
        &&& 0 <= self.total
        &&& 0 <= self.sequence_number <= ceil_div(self.total, self.batch_size)
        &&& match self.state {
            StateView::Sending => self.sequence_number >= 1 && self.attempted
                == self.sequence_number - 1,
            StateView::Completed => self.sequence_number == ceil_div(self.total, self.batch_size)
                && self.attempted == self.sequence_number,
            StateView::Aborted { .. } => self.sequence_number >= 1 && self.attempted
                == self.sequence_number,
            StateView::Rejected => self.total == 0 && self.attempted == 0,
        }
    }
}

impl UploadRun {
    /// Starts a run over `total` records; a run with no records is rejected
    /// at once and never asks for a send.
    pub fn start(total: usize, batch_size: usize) -> (r: UploadRun)
        requires
            batch_size > 0,
        ensures
            r@ == start_spec(total as int, batch_size as int),
            r@.wf(),
    {
        proof {
            lemma_ceil_div_bound(total as int, batch_size as int, 0);
        }
        if total == 0 {
            UploadRun { total, batch_size, sequence_number: 0, attempted: 0, state: UploadState::Rejected }
        } else {
            UploadRun { total, batch_size, sequence_number: 1, attempted: 0, state: UploadState::Sending }
        }
    }

    /// The batch to send now: the one in flight while the run is sending,
    /// none once it has ended.
    pub fn pending_batch(&self) -> (r: Option<Batch>)
        requires
            self@.wf(),
        ensures
            r == pending_spec(self@),
    {
        match self.state {
            UploadState::Sending => {
                let ghost n = self.total as int;
                let ghost b = self.batch_size as int;
                let ghost k = self.sequence_number as int;
                proof {
                    lemma_ceil_div_bound(n, b, k - 1);
                    lemma_ceil_div_bound(n, b, k);
                }
                assert(k * b == (k - 1) * b + b) by (nonlinear_arith);
                let start = (self.sequence_number - 1) * self.batch_size;
                let end = if self.total - start > self.batch_size {
                    start + self.batch_size
                } else {
                    self.total
                };
                Some(Batch { start, end, sequence_number: self.sequence_number })
            },
            _ => None,
        }
    }

    /// Records the server's response to the batch in flight. A refusal ends
    /// the run with the server's error text; an acceptance moves on to the
    /// next batch, or completes the run after the last one.
    pub fn record_response(&mut self, accepted: bool, error_text: String)
        requires
            old(self)@.wf(),
            old(self).state is Sending,
        ensures
            final(self)@ == step_spec(old(self)@, accepted, error_text@),
            final(self)@.wf(),
    {
        proof {
            lemma_ceil_div_bound(self.total as int, self.batch_size as int, 0);
        }
        let last = self.last_sequence_number();
        self.attempted = self.attempted + 1;
        if !accepted {
            self.state = UploadState::Aborted { error: error_text };
        } else if self.sequence_number < last {
            self.sequence_number = self.sequence_number + 1;
        } else {
            self.state = UploadState::Completed;
        }
    }

    /// Number of batches of the run.
    pub fn last_sequence_number(&self) -> (r: usize)
        requires
            self@.wf(),
        ensures
            r == ceil_div(self.total as int, self.batch_size as int),
    {
        if self.total == 0 {
            proof {
                lemma_ceil_div_bound(0, self.batch_size as int, 0);
            }
            0
        } else {
            get_iteration(&self.batch_size, &(self.total - 1))
        }
    }
}

/// Where and how batches are uploaded.
pub struct Config {
    pub url: String,
    /// Bearer token obtained from the authorization server.
    pub token: String,
    pub batch_size: usize,
    /// Per-request ceiling, in seconds.
    pub timeout: u64,
}

/// The text `Bearer `.
pub open spec fn bearer_prefix() -> Seq<char> {
    seq!['B', 'e', 'a', 'r', 'e', 'r', ' ']
}

impl Config {
    /// The value of the `Authorization` header: `Bearer <token>`.
    pub fn authorization(&self) -> (r: String)
        ensures
            r@ == bearer_prefix() + self.token@,
    {
        let mut r = String::new();
        proof {
            reveal_strlit("Bearer ");
        }
        r.append("Bearer ");
        r.append(self.token.as_str());
        r
    }
}

/// Notifications around each batch of a run.
pub trait Callbacks {
    /// Before a batch is sent: the number of records, the batch size and the
    /// batch's sequence number.
    fn on_upload(&self, total_size: usize, batch_size: usize, iteration: usize);

    /// A batch was refused, with the server's error text.
    fn on_error(&self, error: String);

    /// A batch was accepted.
    fn on_success(&self);
}

/// A run over zero records is rejected before any send: it has attempted
/// nothing and asks for no batch.
pub proof fn lemma_no_records_rejected(batch_size: int)
    requires
        batch_size > 0,
    ensures
        start_spec(0, batch_size).state is Rejected,
        start_spec(0, batch_size).attempted == 0,
        pending_spec(start_spec(0, batch_size)) is None,
{
}

/// A refused batch aborts the run: the run keeps the server's error text,
/// the refused batch is the last one attempted, and no further batch is
/// asked for.
pub proof fn lemma_refusal_aborts(r: RunView, error: Seq<char>)
    requires
        r.wf(),
        r.state is Sending,
    ensures
        step_spec(r, false, error).state == (StateView::Aborted { error }),
        step_spec(r, false, error).attempted == r.sequence_number,
        pending_spec(step_spec(r, false, error)) is None,
        step_spec(r, false, error).wf(),
{
}

} // verus!

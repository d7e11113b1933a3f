//! The outcome of a reconciliation, step by step: how many steps succeeded,
//! which failed and why, and what follows a step that succeeded.

use vstd::prelude::*;
use vstd::string::*;

use crate::image::{Upload, UploadView};
use crate::reconcile::{Action, ActionView};

verus! {

/// What is noted of an entry whose cover address has no extension.
pub const NO_EXTENSION: &'static str = "the address of the cover has no extension";

/// The kind of a step.
#[derive(Clone, Copy, Debug, PartialEq, Eq, Structural)]
pub enum Step {
    Delete,
    StoreAnime,
    StoreRow,
    Reject,
}

/// A step that failed: the media it was about, its kind, and the error.
#[derive(Clone, Debug, PartialEq, Eq)]
pub struct Failure {
    pub anime_id: i32,
    pub step: Step,
    pub error: String,
}

/// The outcome of the reconciliation of one user so far.
#[derive(Clone, Debug, PartialEq, Eq)]
pub struct Report {
    pub user_id: i32,
    pub succeeded: u64,
    pub failures: Vec<Failure>,
}

/// [`Failure`] as the contracts see it: every text is the sequence of its characters.
pub struct FailureView {
    pub anime_id: i32,
    pub step: Step,
    pub error: Seq<char>,
}

/// [`Report`] as the contracts see it: every text is the sequence of its characters.
pub struct ReportView {
    pub user_id: i32,
    pub succeeded: u64,
    pub failures: Seq<FailureView>,
}

impl View for Failure {
    type V = FailureView;

    open spec fn view(&self) -> FailureView {
        FailureView { anime_id: self.anime_id, step: self.step, error: self.error@ }
    }
}

impl DeepView for Failure {
    type V = FailureView;

    open spec fn deep_view(&self) -> FailureView {
        self.view()
    }
}

impl View for Report {
    type V = ReportView;

    open spec fn view(&self) -> ReportView {
        ReportView {
            user_id: self.user_id,
            succeeded: self.succeeded,
            failures: self.failures.deep_view(),
        }
    }
}

/// The kind of a step.
pub open spec fn step_of(action: ActionView) -> Step {
    match action {
        ActionView::Delete { .. } => Step::Delete,
        ActionView::StoreAnime { .. } => Step::StoreAnime,
        ActionView::StoreRow { .. } => Step::StoreRow,
        ActionView::Reject { .. } => Step::Reject,
    }
}

/// The media a step is about.
pub open spec fn media_of(action: ActionView) -> i32 {
    match action {
        ActionView::Delete { anime_id, .. } => anime_id,
        ActionView::StoreAnime { anime, .. } => anime.anime_id,
        ActionView::StoreRow { row } => row.anime_id,
        ActionView::Reject { anime_id, .. } => anime_id,
    }
}

/// The error that is noted of a step, if any: a rejected entry always has
/// one, any other step has the one that the store gave.
pub open spec fn error_of(action: ActionView, outcome: Result<(), Seq<char>>) -> Option<Seq<char>> {
    if action is Reject {
        Some(NO_EXTENSION@)
    } else {
        match outcome {
            Ok(_) => None,
            Err(error) => Some(error),
        }
    }
}

/// The report after one more step: a step without an error is counted, up
/// to the largest count that can be held; a step with an error is added to
/// the failures under its media and its kind.
pub open spec fn noted(report: ReportView, anime_id: i32, step: Step, error: Option<Seq<char>>) -> ReportView {
    match error {
        None => ReportView {
            succeeded: if report.succeeded < u64::MAX {
                (report.succeeded + 1) as u64
            } else {
                report.succeeded
            },
            ..report
        },
        Some(error) => ReportView {
            failures: report.failures.push(FailureView { anime_id, step, error }),
            ..report
        },
    }
}

/// The report after the outcome of one step was noted.
pub open spec fn recorded(report: ReportView, action: ActionView, outcome: Result<(), Seq<char>>) -> ReportView {
    noted(report, media_of(action), step_of(action), error_of(action, outcome))
}

/// What follows a step: the re-hosting of the cover once its anime record
/// is stored, and nothing after any other step or after a failure.
pub open spec fn followup(action: ActionView, outcome: Result<(), Seq<char>>) -> Option<UploadView> {
    match action {
        ActionView::StoreAnime { cover, .. } => if outcome is Ok {
            Some(cover)
        } else {
            None
        },
        _ => None,
    }
}

/// The outcome of a store call as the contracts speak of it.
pub open spec fn outcome_view(outcome: Result<(), String>) -> Result<(), Seq<char>> {
    match outcome {
        Ok(_) => Ok(()),
        Err(error) => Err(error@),
    }
}

impl Report {
    /// The report of a reconciliation of which no step was taken yet.
    pub fn new(user_id: i32) -> (report: Report)
        ensures
            report@ == (ReportView { user_id, succeeded: 0, failures: Seq::empty() }),
    {
        let report = Report { user_id, succeeded: 0, failures: Vec::new() };
        assert(report@.failures =~= Seq::empty());
        report
    }

    /// Notes the outcome of one step and says what follows it. A failure
    /// never stops the reconciliation: it is kept with the media and the
    /// kind of the step.
    pub fn record(&mut self, action: Action, outcome: Result<(), String>) -> (next: Option<Upload>)
        ensures
            final(self)@ == recorded(old(self)@, action@, outcome_view(outcome)),
            next.deep_view() == followup(action@, outcome_view(outcome)),
    {
        match action {
            Action::Reject { anime_id, .. } => {
                self.note(anime_id, Step::Reject, Some(String::from_str(NO_EXTENSION)));
                None
            },
            Action::Delete { anime_id, .. } => {
                self.note(anime_id, Step::Delete, outcome.err());
                None
            },
            Action::StoreRow { row } => {
                self.note(row.anime_id, Step::StoreRow, outcome.err());
                None
            },
            Action::StoreAnime { anime, cover } => {
                let stored = outcome.is_ok();
                self.note(anime.anime_id, Step::StoreAnime, outcome.err());
                if stored {
                    Some(cover)
                } else {
                    None
                }
            },
        }
    }

    fn note(&mut self, anime_id: i32, step: Step, error: Option<String>)
        ensures
            final(self)@ == noted(old(self)@, anime_id, step, error.deep_view()),
    {
        let ghost before = self.failures.deep_view();
        match error {
            None => {
                if self.succeeded < u64::MAX {
                    self.succeeded = self.succeeded + 1;
                }
            },
            Some(error) => {
                self.failures.push(Failure { anime_id, step, error });
                assert(self.failures.deep_view() =~= before.push(
                    FailureView { anime_id, step, error: error@ },
                ));
            },
        }
    }
}

} // verus!

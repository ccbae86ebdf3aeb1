//! One verification, step by step.
//!
//! The work that only collaborators can do (reading the artifact, loading or
//! generating parameters and keys, running a verifier) is asked for as an
//! [`Action`]; what came of it is handed back as an [`Event`]. A [`Session`]
//! decides what is asked next and how the verification ends. It keeps the
//! order fixed: the artifact is read first, parameters and key are loaded only
//! for an artifact that could be read, and the verifier runs last.

use crate::report::{Failure, Indicator, Outcome, PathRole, Report};
use crate::scheme::{Artifact, NovaImpl, ProofShape, Route};
use std::path::PathBuf;
use vstd::prelude::*;

verus! {

/// What a route other than the alternate one has to do.
#[derive(Clone, Debug, PartialEq, Eq)]
pub struct Job {
    /// The shape in which the artifact is read.
    pub shape: ProofShape,
    /// The kind of public parameters that are loaded.
    pub kind: NovaImpl,
    /// Where the public parameters are.
    pub params_path: String,
    /// Where the compression key is, if one is needed.
    pub key_path: Option<String>,
}

/// How far a verification has come.
#[derive(Clone, Debug, PartialEq, Eq)]
pub enum Stage {
    /// The alternate scheme's verifier has the whole job.
    Delegating,
    /// The artifact is to be read.
    Reading { job: Job },
    /// The artifact was read; the public parameters are to be loaded.
    LoadingParams { job: Job, artifact: Artifact },
    /// The parameters are there; the compression key is to be loaded.
    LoadingKey { key_path: String, params_path: String, artifact: Artifact },
    /// All is loaded; the verifier of the artifact's shape runs.
    Verifying { artifact: Artifact },
    /// The verification is over.
    Finished { outcome: Outcome },
}

/// One verification in progress.
#[derive(Clone, Debug, PartialEq, Eq)]
pub struct Session {
    /// Where the artifact is.
    pub file: PathBuf,
    /// The route that was chosen.
    pub route: Route,
    /// The size parameter, as the caller or the configuration gave it.
    pub k: usize,
    /// How far the verification has come.
    pub stage: Stage,
    /// The state of the progress indicator.
    pub indicator: Indicator,
}

/// What a collaborator is asked to do next.
#[derive(Clone, Debug, PartialEq, Eq)]
pub enum Action {
    /// Hand the artifact at `file`, with the caller's arguments, to the
    /// alternate scheme's verifier.
    Delegate { file: PathBuf },
    /// Read the artifact at `file` in the given shape.
    ReadArtifact { file: PathBuf, shape: ProofShape },
    /// Load the public parameters at `path`, generating them only if they are absent.
    LoadParams { regenerate: bool, kind: NovaImpl, k: usize, path: String },
    /// Load the compression key at `key_path`, generating it from the
    /// parameters at `params_path` only if it is absent.
    LoadKey { regenerate: bool, key_path: String, params_path: String },
    /// Show the indicator as in progress and run the verifier that goes with
    /// the artifact's shape, on the artifact, the parameters and the key that
    /// were loaded; a sequential proof is verified for the number of steps it
    /// carries.
    Verify { artifact: Artifact },
    /// Resolve the indicator, log the report and leave with its exit code.
    Finish { report: Report },
}

/// What came of the last action.
#[derive(Clone, Debug, PartialEq, Eq)]
pub enum Event {
    /// The artifact was read, and this is what it holds.
    Artifact(Artifact),
    /// The action succeeded.
    Done,
    /// The action failed, with what the collaborator said of it.
    Failed(String),
}

impl Event {
    /// What the collaborator said of a failure.
    pub open spec fn detail(self) -> Option<String> {
        match self {
            Event::Failed(text) => Some(text),
            _ => None,
        }
    }

    /// Takes out what the collaborator said of a failure.
    pub fn into_detail(self) -> (detail: Option<String>)
        ensures
            detail == self.detail(),
    {
        match self {
            Event::Failed(text) => Some(text),
            _ => None,
        }
    }
}

impl Job {
    /// Whether this job is the one the route calls for.
    pub open spec fn fits(self, route: Route) -> bool {
        &&& route.expected_shape() == Some(self.shape)
        &&& route.params_kind() == Some(self.kind)
        &&& route.needs_key() <==> self.key_path is Some
    }

    /// Whether an event brings an artifact in the shape this job reads.
    pub open spec fn accepts(self, event: Event) -> bool {
        event matches Event::Artifact(artifact) && artifact.shape() == self.shape
    }
}

impl Session {
    /// A session before anything was done.
    pub open spec fn is_fresh(self) -> bool {
        &&& self.indicator == Indicator::NotStarted
        &&& match self.stage {
            Stage::Delegating => self.route == Route::Alternate,
            Stage::Reading { job } => job.fits(self.route),
            _ => false,
        }
    }

    /// The invariant of a session: the stage belongs to the route, and the
    /// indicator says what the stage says. It is in progress exactly while the
    /// verifier runs, and once the verification is over it is resolved:
    /// committed for a valid proof, aborted for every failure. On the
    /// alternate route no indicator is ever opened.
    pub open spec fn wf(self) -> bool {
        match self.stage {
            Stage::Delegating => self.route == Route::Alternate && self.indicator == Indicator::NotStarted,
            Stage::Reading { job } => job.fits(self.route) && self.indicator == Indicator::NotStarted,
            Stage::LoadingParams { job, artifact } => {
                &&& job.fits(self.route)
                &&& artifact.shape() == job.shape
                &&& self.indicator == Indicator::NotStarted
            },
            Stage::LoadingKey { artifact, .. } => {
                &&& self.route == Route::Compressed
                &&& artifact.shape() == ProofShape::Compressed
                &&& self.indicator == Indicator::NotStarted
            },
            Stage::Verifying { artifact } => {
                &&& self.route.expected_shape() == Some(artifact.shape())
                &&& self.indicator == Indicator::InProgress
            },
            Stage::Finished { outcome } => if self.route == Route::Alternate {
                &&& self.indicator == Indicator::NotStarted
                &&& outcome matches Outcome::Invalid(failure) ==> failure is Delegated
            } else {
                match outcome {
                    Outcome::Valid => self.indicator == Indicator::Committed,
                    Outcome::Invalid(failure) => {
                        &&& self.indicator == Indicator::Aborted
                        &&& !(failure is Delegated)
                    },
                }
            },
        }
    }

    /// Whether the verification is over.
    pub open spec fn finished(self) -> bool {
        self.stage is Finished
    }

    /// The session as it ends with a failure: the indicator is aborted.
    pub open spec fn failed(self, failure: Failure) -> Session {
        Session {
            file: self.file,
            route: self.route,
            k: self.k,
            stage: Stage::Finished { outcome: Outcome::Invalid(failure) },
            indicator: Indicator::Aborted,
        }
    }

    /// The session as the verifier starts: the indicator is in progress.
    pub open spec fn verifying(self, artifact: Artifact) -> Session {
        Session {
            file: self.file,
            route: self.route,
            k: self.k,
            stage: Stage::Verifying { artifact },
            indicator: Indicator::InProgress,
        }
    }

    /// The session at another stage, the indicator untouched.
    pub open spec fn at(self, stage: Stage) -> Session {
        Session { file: self.file, route: self.route, k: self.k, stage, indicator: self.indicator }
    }

    /// What is asked of the collaborators at this stage.
    pub open spec fn pending(self) -> Action {
        match self.stage {
            Stage::Delegating => Action::Delegate { file: self.file },
            Stage::Reading { job } => Action::ReadArtifact { file: self.file, shape: job.shape },
            Stage::LoadingParams { job, artifact } => Action::LoadParams {
                regenerate: false,
                kind: job.kind,
                k: self.k,
                path: job.params_path,
            },
            Stage::LoadingKey { key_path, params_path, artifact } => Action::LoadKey {
                regenerate: false,
                key_path,
                params_path,
            },
            Stage::Verifying { artifact } => Action::Verify { artifact },
            Stage::Finished { outcome } => Action::Finish {
                report: Report { outcome, route: self.route, k: self.k },
            },
        }
    }

    /// The session after an event. Only the success that a stage waits for
    /// leads on; every other event ends the verification with the failure of
    /// that stage. Once the verification is over, events change nothing.
    pub open spec fn step_spec(self, event: Event) -> Session {
        match self.stage {
            Stage::Delegating => if event is Done {
                self.at(Stage::Finished { outcome: Outcome::Valid })
            } else {
                let failure = Failure::Delegated { detail: event.detail() };
                self.at(Stage::Finished { outcome: Outcome::Invalid(failure) })
            },
            Stage::Reading { job } => match event {
                Event::Artifact(artifact) if artifact.shape() == job.shape => self.at(
                    Stage::LoadingParams { job, artifact },
                ),
                _ => self.failed(Failure::Deserialization { file: self.file, detail: event.detail() }),
            },
            Stage::LoadingParams { job, artifact } => if event is Done {
                match job.key_path {
                    Some(key_path) => self.at(
                        Stage::LoadingKey { key_path, params_path: job.params_path, artifact },
                    ),
                    None => self.verifying(artifact),
                }
            } else {
                self.failed(
                    Failure::Provisioning {
                        role: PathRole::Params,
                        path: job.params_path,
                        detail: event.detail(),
                    },
                )
            },
            Stage::LoadingKey { key_path, params_path, artifact } => if event is Done {
                self.verifying(artifact)
            } else {
                self.failed(
                    Failure::Provisioning { role: PathRole::Key, path: key_path, detail: event.detail() },
                )
            },
            Stage::Verifying { artifact } => if event is Done {
                Session {
                    file: self.file,
                    route: self.route,
                    k: self.k,
                    stage: Stage::Finished { outcome: Outcome::Valid },
                    indicator: Indicator::Committed,
                }
            } else {
                self.failed(Failure::Rejected { detail: event.detail() })
            },
            Stage::Finished { .. } => self,
        }
    }

    /// How many events the verification can take at most before it is over.
    pub open spec fn remaining(self) -> nat {
        match self.stage {
            Stage::Delegating => 1,
            Stage::Reading { .. } => 4,
            Stage::LoadingParams { .. } => 3,
            Stage::LoadingKey { .. } => 2,
            Stage::Verifying { .. } => 1,
            Stage::Finished { .. } => 0,
        }
    }

    /// The session after a run of events.
    pub open spec fn run(self, events: Seq<Event>) -> Session
        decreases events.len(),
    {
        if events.len() == 0 {
            self
        } else {
            self.step_spec(events[0]).run(events.drop_first())
        }
    }

    /// The session for the alternate route.
    pub(crate) fn delegate(file: PathBuf, k: usize) -> (session: Session)
        ensures
            session == (Session {
                file,
                route: Route::Alternate,
                k,
                stage: Stage::Delegating,
                indicator: Indicator::NotStarted,
            }),
            session.is_fresh(),
            session.wf(),
    {
        Session {
            file,
            route: Route::Alternate,
            k,
            stage: Stage::Delegating,
            indicator: Indicator::NotStarted,
        }
    }

    /// The session that is about to read its artifact.
    pub(crate) fn begin(file: PathBuf, route: Route, k: usize, job: Job) -> (session: Session)
        ensures
            session == (Session {
                file,
                route,
                k,
                stage: Stage::Reading { job },
                indicator: Indicator::NotStarted,
            }),
            job.fits(route) ==> session.is_fresh() && session.wf(),
    {
        Session { file, route, k, stage: Stage::Reading { job }, indicator: Indicator::NotStarted }
    }

    /// Whether the verification is over.
    pub fn is_finished(&self) -> (over: bool)
        ensures
            over == self.finished(),
    {
        match &self.stage {
            Stage::Finished { .. } => true,
            _ => false,
        }
    }

    /// What is asked of the collaborators at this stage. Parameters and keys
    /// are never asked to be generated anew.
    pub fn next_action(&self) -> (action: Action)
        ensures
            action == self.pending(),
            action matches Action::LoadParams { regenerate, .. } ==> !regenerate,
            action matches Action::LoadKey { regenerate, .. } ==> !regenerate,
            action is Finish <==> self.finished(),
    {
        match &self.stage {
            Stage::Delegating => Action::Delegate { file: self.file.clone() },
            Stage::Reading { job } => Action::ReadArtifact { file: self.file.clone(), shape: job.shape },
            Stage::LoadingParams { job, .. } => Action::LoadParams {
                regenerate: false,
                kind: job.kind,
                k: self.k,
                path: job.params_path.clone(),
            },
            Stage::LoadingKey { key_path, params_path, .. } => Action::LoadKey {
                regenerate: false,
                key_path: key_path.clone(),
                params_path: params_path.clone(),
            },
            Stage::Verifying { artifact } => Action::Verify { artifact: *artifact },
            Stage::Finished { outcome } => Action::Finish {
                report: Report { outcome: outcome.duplicate(), route: self.route, k: self.k },
            },
        }
    }

    /// The report of a verification that is over.
    pub fn report(&self) -> (report: Option<Report>)
        ensures
            match self.stage {
                Stage::Finished { outcome } => report == Some(
                    Report { outcome, route: self.route, k: self.k },
                ),
                _ => report is None,
            },
    {
        match &self.stage {
            Stage::Finished { outcome } => Some(
                Report { outcome: outcome.duplicate(), route: self.route, k: self.k },
            ),
            _ => None,
        }
    }

    /// Takes in what came of the pending action and moves on.
    pub fn step(self, event: Event) -> (next: Session)
        ensures
            next == self.step_spec(event),
            self.wf() ==> next.wf(),
    {
        let Session { file, route, k, stage, indicator } = self;
        match stage {
            Stage::Delegating => {
                let outcome = match event {
                    Event::Done => Outcome::Valid,
                    other => Outcome::Invalid(Failure::Delegated { detail: other.into_detail() }),
                };
                Session { file, route, k, stage: Stage::Finished { outcome }, indicator }
            },
            Stage::Reading { job } => {
                match event {
                    Event::Artifact(artifact) => {
                        if artifact.proof_shape() == job.shape {
                            Session {
                                file,
                                route,
                                k,
                                stage: Stage::LoadingParams { job, artifact },
                                indicator,
                            }
                        } else {
                            let failure = Failure::Deserialization { file: file.clone(), detail: None };
                            fail(file, route, k, failure)
                        }
                    },
                    other => {
                        let failure = Failure::Deserialization {
                            file: file.clone(),
                            detail: other.into_detail(),
                        };
                        fail(file, route, k, failure)
                    },
                }
            },
            Stage::LoadingParams { job, artifact } => {
                let Job { shape: _, kind: _, params_path, key_path } = job;
                match event {
                    Event::Done => match key_path {
                        Some(key_path) => Session {
                            file,
                            route,
                            k,
                            stage: Stage::LoadingKey { key_path, params_path, artifact },
                            indicator,
                        },
                        None => start_verifier(file, route, k, artifact),
                    },
                    other => {
                        let detail = other.into_detail();
                        fail(file, route, k, Failure::Provisioning { role: PathRole::Params, path: params_path, detail })
                    },
                }
            },
            Stage::LoadingKey { key_path, params_path: _, artifact } => {
                match event {
                    Event::Done => start_verifier(file, route, k, artifact),
                    other => {
                        let detail = other.into_detail();
                        fail(file, route, k, Failure::Provisioning { role: PathRole::Key, path: key_path, detail })
                    },
                }
            },
            Stage::Verifying { artifact: _ } => {
                match event {
                    Event::Done => Session {
                        file,
                        route,
                        k,
                        stage: Stage::Finished { outcome: Outcome::Valid },
                        indicator: Indicator::Committed,
                    },
                    other => fail(file, route, k, Failure::Rejected { detail: other.into_detail() }),
                }
            },
            Stage::Finished { outcome } => {
                Session { file, route, k, stage: Stage::Finished { outcome }, indicator }
            },
        }
    }
}

/// The events of a run in which every collaborator succeeds: the artifact,
/// the parameters, the key where one is needed, and the verifier's assent.
pub open spec fn all_succeed(artifact: Artifact, with_key: bool) -> Seq<Event> {
    if with_key {
        seq![Event::Artifact(artifact), Event::Done, Event::Done, Event::Done]
    } else {
        seq![Event::Artifact(artifact), Event::Done, Event::Done]
    }
}

/// Every step keeps the invariant, and so does every run: whatever the
/// collaborators answer, the indicator is in progress only while the verifier
/// runs, and a verification that is over has resolved it.
pub proof fn law_indicator_is_resolved(session: Session, events: Seq<Event>)
    requires
        session.wf(),
    ensures
        session.run(events).wf(),
        session.run(events).finished() ==> session.run(events).indicator != Indicator::InProgress,
        session.run(events).finished() && session.route != Route::Alternate ==> (session.run(
            events,
        ).indicator == Indicator::Committed <==> session.run(events).stage == Stage::Finished {
            outcome: Outcome::Valid,
        }),
        session.run(events).route == session.route,
        session.run(events).k == session.k,
        session.run(events).file == session.file,
    decreases events.len(),
{
    if events.len() > 0 {
        law_indicator_is_resolved(session.step_spec(events[0]), events.drop_first());
    }
}

/// A verification that is over stays as it is: no later event changes the
/// outcome, the indicator or what is reported.
pub proof fn law_finished_is_final(session: Session, events: Seq<Event>)
    requires
        session.finished(),
    ensures
        session.run(events) == session,
    decreases events.len(),
{
    if events.len() > 0 {
        law_finished_is_final(session, events.drop_first());
    }
}

/// Every event brings the end nearer, and no verification is left hanging: a
/// session is over once it has heard as many events as it could still take,
/// four at most.
pub proof fn law_run_comes_to_an_end(session: Session, events: Seq<Event>)
    requires
        events.len() >= session.remaining(),
    ensures
        session.run(events).finished(),
        session.remaining() <= 4,
        !session.finished() && events.len() > 0 ==> session.step_spec(events[0]).remaining()
            < session.remaining(),
    decreases events.len(),
{
    if events.len() > 0 {
        law_run_comes_to_an_end(session.step_spec(events[0]), events.drop_first());
    }
}

/// A run can be told in two parts.
proof fn lemma_run_splits(session: Session, events: Seq<Event>, n: int)
    requires
        0 <= n <= events.len(),
    ensures
        session.run(events) == session.run(events.take(n)).run(events.skip(n)),
    decreases n,
{
    if n == 0 {
        assert(events.skip(0) =~= events);
        assert(events.take(0).len() == 0);
    } else {
        let rest = events.drop_first();
        lemma_run_splits(session.step_spec(events[0]), rest, n - 1);
        assert(rest.take(n - 1) =~= events.take(n).drop_first());
        assert(rest.skip(n - 1) =~= events.skip(n));
        assert(events.take(n)[0] == events[0]);
    }
}

/// The outcome is a function of what the collaborators answered, and of
/// nothing else: two runs from the same session that hear the same answers
/// until the verification is over end in the same session, whatever follows.
/// Verifying once more with the same answers gives the same outcome.
pub proof fn law_same_answers_same_outcome(session: Session, first: Seq<Event>, second: Seq<Event>, n: int)
    requires
        0 <= n <= first.len(),
        n <= second.len(),
        first.take(n) == second.take(n),
        session.run(first.take(n)).finished(),
    ensures
        session.run(first) == session.run(second),
        session.run(first) == session.run(first.take(n)),
{
    let over = session.run(first.take(n));
    lemma_run_splits(session, first, n);
    lemma_run_splits(session, second, n);
    law_finished_is_final(over, first.skip(n));
    law_finished_is_final(over, second.skip(n));
}

/// Where artifact, parameters and key are read and loaded and the verifier
/// accepts the proof, the verification ends valid, the indicator committed and
/// the exit status zero.
pub proof fn law_accepted_proof_is_valid(session: Session, artifact: Artifact)
    requires
        session.stage is Reading,
        session.stage->Reading_job.shape == artifact.shape(),
    ensures
        ({
            let end = session.run(all_succeed(artifact, session.stage->Reading_job.key_path is Some));
            &&& end.stage == Stage::Finished { outcome: Outcome::Valid }
            &&& end.indicator == Indicator::Committed
            &&& end.pending() == Action::Finish {
                report: Report { outcome: Outcome::Valid, route: session.route, k: session.k },
            }
            &&& (Report { outcome: Outcome::Valid, route: session.route, k: session.k }).exit_status() == 0
        }),
{
    let job = session.stage->Reading_job;
    let events = all_succeed(artifact, job.key_path is Some);
    reveal_with_fuel(Session::run, 5);
    assert(events.drop_first()[0] == Event::Done);
    assert(events.drop_first().drop_first()[0] == Event::Done);
    if job.key_path is Some {
        assert(events.drop_first().drop_first().drop_first()[0] == Event::Done);
        assert(events.drop_first().drop_first().drop_first().drop_first().len() == 0);
    } else {
        assert(events.drop_first().drop_first().drop_first().len() == 0);
    }
}

/// A verifier's assent is the only way to a valid proof: a session ends valid
/// in a step only if a verifier was at work, this dispatcher's or the
/// alternate scheme's, and said so.
pub proof fn law_only_the_verifier_validates(session: Session, event: Event)
    requires
        !session.finished(),
        session.step_spec(event).stage == (Stage::Finished { outcome: Outcome::Valid }),
    ensures
        event is Done,
        session.stage is Verifying || session.stage is Delegating,
{
}

/// An artifact that cannot be read ends the verification at once, as a failure
/// to read it: nothing is loaded or generated and no verifier is run, then or
/// later.
pub proof fn law_unreadable_artifact_ends_the_run(session: Session, event: Event, later: Seq<Event>)
    requires
        session.stage is Reading,
        !session.stage->Reading_job.accepts(event),
    ensures
        session.step_spec(event) == session.failed(
            Failure::Deserialization { file: session.file, detail: event.detail() },
        ),
        session.step_spec(event).pending() is Finish,
        session.step_spec(event).run(later) == session.step_spec(event),
{
    law_finished_is_final(session.step_spec(event), later);
}

/// An artifact of another shape than the route reads is never taken for one of
/// the right shape: the verification ends as a failure to read it, and no
/// later event makes it anything else.
pub proof fn law_wrong_shape_is_refused(session: Session, artifact: Artifact, later: Seq<Event>)
    requires
        session.wf(),
        session.stage is Reading,
        Some(artifact.shape()) != session.route.expected_shape(),
    ensures
        session.step_spec(Event::Artifact(artifact)) == session.failed(
            Failure::Deserialization { file: session.file, detail: None },
        ),
        session.step_spec(Event::Artifact(artifact)).run(later).stage == (Stage::Finished {
            outcome: Outcome::Invalid(Failure::Deserialization { file: session.file, detail: None }),
        }),
{
    law_unreadable_artifact_ends_the_run(session, Event::Artifact(artifact), later);
}

/// A delegated verification is the alternate verifier's alone. Its word ends
/// the verification and is passed on as it came: assent as a valid proof, a
/// failure with what was said of it. Nothing is read, loaded or verified by
/// the dispatcher, then or later, and no indicator is touched.
pub proof fn law_delegation_is_passed_on(session: Session, event: Event, later: Seq<Event>)
    requires
        session.stage is Delegating,
    ensures
        session.pending() == (Action::Delegate { file: session.file }),
        event is Done ==> session.step_spec(event).stage == (Stage::Finished { outcome: Outcome::Valid }),
        event matches Event::Failed(text) ==> session.step_spec(event).stage == (Stage::Finished {
            outcome: Outcome::Invalid(Failure::Delegated { detail: Some(text) }),
        }),
        session.step_spec(event).indicator == session.indicator,
        session.step_spec(event).pending() is Finish,
        session.step_spec(event).run(later) == session.step_spec(event),
{
    law_finished_is_final(session.step_spec(event), later);
}

/// The order of the work is fixed. Parameters are asked for only after the
/// artifact was read in the right shape; the key only after the parameters
/// were loaded; the verifier only after all that it needs was loaded, and
/// then for the very artifact that was read.
pub proof fn law_order_of_actions(session: Session, event: Event)
    requires
        session.wf(),
    ensures
        ({
            let next = session.step_spec(event);
            &&& next.pending() is ReadArtifact ==> session.stage is Reading
            &&& next.pending() is Delegate ==> session.stage is Delegating
            &&& next.pending() is LoadParams ==> (session.stage matches Stage::Reading { job } && job.accepts(
                event,
            ))
            &&& next.pending() is LoadKey && !(session.stage is LoadingKey) ==> session.stage is LoadingParams
                && event is Done
            &&& next.pending() matches Action::Verify { artifact } ==> (session.stage is Verifying) || ({
                &&& event is Done
                &&& session.route.expected_shape() == Some(artifact.shape())
                &&& match session.stage {
                    Stage::LoadingKey { artifact: read, .. } => read == artifact,
                    Stage::LoadingParams { artifact: read, .. } => read == artifact && session.route
                        != Route::Compressed,
                    _ => false,
                }
            })
        }),
{
}

/// The session that ends with a failure.
fn fail(file: PathBuf, route: Route, k: usize, failure: Failure) -> (session: Session)
    ensures
        session == (Session {
            file,
            route,
            k,
            stage: Stage::Finished { outcome: Outcome::Invalid(failure) },
            indicator: Indicator::Aborted,
        }),
{
    Session {
        file,
        route,
        k,
        stage: Stage::Finished { outcome: Outcome::Invalid(failure) },
        indicator: Indicator::Aborted,
    }
}

/// The session in which the verifier starts.
fn start_verifier(file: PathBuf, route: Route, k: usize, artifact: Artifact) -> (session: Session)
    ensures
        session == (Session {
            file,
            route,
            k,
            stage: Stage::Verifying { artifact },
            indicator: Indicator::InProgress,
        }),
{
    Session { file, route, k, stage: Stage::Verifying { artifact }, indicator: Indicator::InProgress }
}

} // verus!

//! What a verification ends in, and how that is told: the outcome, the record
//! that is logged, and the status the process exits with.

use crate::paths::ConfigError;
use crate::scheme::{NovaImpl, Route};
use std::path::PathBuf;
use vstd::prelude::*;

verus! {

/// The progress indicator around the verifier's run.
#[derive(Clone, Copy, Debug, PartialEq, Eq, Structural)]
pub enum Indicator {
    /// The verifier has not been started.
    NotStarted,
    /// The verifier is at work.
    InProgress,
    /// The verifier accepted the proof.
    Committed,
    /// The run failed, before the verifier or in it.
    Aborted,
}

/// Which of the two cached objects a path leads to.
#[derive(Clone, Copy, Debug, PartialEq, Eq, Structural)]
pub enum PathRole {
    /// The public parameters.
    Params,
    /// The compression key.
    Key,
}

/// Why a verification did not end in a valid proof.
#[derive(Clone, Debug, PartialEq, Eq)]
pub enum Failure {
    /// A path could not be settled; nothing was read or loaded.
    Config { role: PathRole, error: ConfigError },
    /// The artifact at `file` could not be read in the shape that was asked for.
    Deserialization { file: PathBuf, detail: Option<String> },
    /// The object at `path` could neither be loaded nor generated.
    Provisioning { role: PathRole, path: String, detail: Option<String> },
    /// The verifier ran and rejected the proof.
    Rejected { detail: Option<String> },
    /// The alternate scheme's verifier failed; its word is passed on as it came.
    Delegated { detail: Option<String> },
}

/// The outcome of a verification.
#[derive(Clone, Debug, PartialEq, Eq)]
pub enum Outcome {
    /// The proof is valid.
    Valid,
    /// The proof was not found valid, for the given reason.
    Invalid(Failure),
}

/// How loud a log record is.
#[derive(Clone, Copy, Debug, PartialEq, Eq, Structural)]
pub enum Level {
    /// For a valid proof.
    Info,
    /// For every failure.
    Error,
}

/// The record of a finished verification.
#[derive(Clone, Debug, PartialEq, Eq)]
pub struct Report {
    /// How the verification ended.
    pub outcome: Outcome,
    /// The route it took.
    pub route: Route,
    /// The size parameter it was run with.
    pub k: usize,
}

/// A copy of an optional text.
fn clone_text(text: &Option<String>) -> (copy: Option<String>)
    ensures
        copy == *text,
{
    match text {
        Some(t) => Some(t.clone()),
        None => None,
    }
}

impl Failure {
    /// Whether the verifier itself turned the proof down: the one failure that
    /// says something of the proof.
    pub open spec fn is_rejection(self) -> bool {
        self is Rejected
    }

    /// What the collaborator that failed had to say.
    pub open spec fn detail(self) -> Option<String> {
        match self {
            Failure::Config { .. } => None,
            Failure::Deserialization { detail, .. } => detail,
            Failure::Provisioning { detail, .. } => detail,
            Failure::Rejected { detail } => detail,
            Failure::Delegated { detail } => detail,
        }
    }

    /// A copy of this failure.
    pub fn duplicate(&self) -> (copy: Failure)
        ensures
            copy == *self,
    {
        match self {
            Failure::Config { role, error } => Failure::Config { role: *role, error: *error },
            Failure::Deserialization { file, detail } => Failure::Deserialization {
                file: file.clone(),
                detail: clone_text(detail),
            },
            Failure::Provisioning { role, path, detail } => Failure::Provisioning {
                role: *role,
                path: path.clone(),
                detail: clone_text(detail),
            },
            Failure::Rejected { detail } => Failure::Rejected { detail: clone_text(detail) },
            Failure::Delegated { detail } => Failure::Delegated { detail: clone_text(detail) },
        }
    }
}

impl Outcome {
    /// A copy of this outcome.
    pub fn duplicate(&self) -> (copy: Outcome)
        ensures
            copy == *self,
    {
        match self {
            Outcome::Valid => Outcome::Valid,
            Outcome::Invalid(failure) => Outcome::Invalid(failure.duplicate()),
        }
    }
}

impl Report {
    /// The status the process exits with: zero for a valid proof, one for
    /// every failure.
    pub open spec fn exit_status(self) -> int {
        if self.outcome is Valid {
            0
        } else {
            1
        }
    }

    /// The level the record is logged at.
    pub open spec fn log_level(self) -> Level {
        if self.outcome is Valid {
            Level::Info
        } else {
            Level::Error
        }
    }

    /// The sentence the record is logged under. A proof that the verifier
    /// turned down is called invalid; of a run that failed for another reason
    /// the sentence only says that the proof could not be verified.
    pub open spec fn sentence(self) -> Seq<char> {
        match self.outcome {
            Outcome::Valid => if self.route == Route::Compressed {
                "Compressed proof is valid"@
            } else {
                "Proof is valid"@
            },
            Outcome::Invalid(failure) => if failure.is_rejection() {
                if self.route == Route::Compressed {
                    "Compressed proof is invalid"@
                } else {
                    "Proof is invalid"@
                }
            } else {
                if self.route == Route::Compressed {
                    "Compressed proof could not be verified"@
                } else {
                    "Proof could not be verified"@
                }
            },
        }
    }

    /// Whether the proof was found valid.
    pub fn is_valid(&self) -> (valid: bool)
        ensures
            valid == (self.outcome is Valid),
    {
        match &self.outcome {
            Outcome::Valid => true,
            Outcome::Invalid(_) => false,
        }
    }

    /// The status the process exits with.
    pub fn exit_code(&self) -> (code: i32)
        ensures
            code == self.exit_status(),
            code == 0 <==> self.outcome is Valid,
    {
        if self.is_valid() {
            0
        } else {
            1
        }
    }

    /// The level the record is logged at.
    pub fn level(&self) -> (level: Level)
        ensures
            level == self.log_level(),
    {
        if self.is_valid() {
            Level::Info
        } else {
            Level::Error
        }
    }

    /// The sentence the record is logged under.
    pub fn headline(&self) -> (text: &'static str)
        ensures
            text@ == self.sentence(),
    {
        let compressed = match self.route {
            Route::Compressed => true,
            _ => false,
        };
        match &self.outcome {
            Outcome::Valid => if compressed {
                "Compressed proof is valid"
            } else {
                "Proof is valid"
            },
            Outcome::Invalid(Failure::Rejected { .. }) => if compressed {
                "Compressed proof is invalid"
            } else {
                "Proof is invalid"
            },
            Outcome::Invalid(_) => if compressed {
                "Compressed proof could not be verified"
            } else {
                "Proof could not be verified"
            },
        }
    }

    /// The Nova implementation the record names: the one the route was chosen
    /// by, and none on the compressed and the alternate route.
    pub fn nova_impl(&self) -> (nova_impl: Option<NovaImpl>)
        ensures
            nova_impl == self.route.nova_impl(),
    {
        match self.route {
            Route::Nova(nova_impl) => Some(nova_impl),
            _ => None,
        }
    }

    /// What the collaborator that failed had to say, where one failed and said
    /// anything.
    pub fn detail(&self) -> (detail: Option<&str>)
        ensures
            match self.outcome {
                Outcome::Valid => detail is None,
                Outcome::Invalid(failure) => match failure.detail() {
                    Some(text) => detail is Some && detail->0@ == text@,
                    None => detail is None,
                },
            },
    {
        let text = match &self.outcome {
            Outcome::Valid => {
                return None;
            },
            Outcome::Invalid(Failure::Config { .. }) => {
                return None;
            },
            Outcome::Invalid(Failure::Deserialization { detail, .. }) => detail,
            Outcome::Invalid(Failure::Provisioning { detail, .. }) => detail,
            Outcome::Invalid(Failure::Rejected { detail }) => detail,
            Outcome::Invalid(Failure::Delegated { detail }) => detail,
        };
        match text {
            Some(t) => Some(t.as_str()),
            None => None,
        }
    }
}

} // verus!

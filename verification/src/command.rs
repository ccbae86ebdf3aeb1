//! The entry to a verification: what the caller asked for is merged with the
//! configured defaults, the route is chosen and the paths are settled. What
//! comes out is a [`Session`] that is ready for its first action, or the report
//! of a path that could not be settled.

use crate::paths::{
    has_text, resolve_key_path, resolve_params_path, resolved_key, resolved_params, text_of, ConfigError,
};
use crate::report::{Failure, Indicator, Outcome, PathRole, Report};
use crate::scheme::{NovaImpl, ProofShape, ProverImpl, Route};
use crate::session::{Action, Job, Session, Stage};
use std::path::PathBuf;
use vstd::prelude::*;

verus! {

/// What the caller asked for.
#[derive(Clone, Debug, PartialEq, Eq)]
pub struct VerifyArgs {
    /// Where the artifact is.
    pub file: PathBuf,
    /// Whether the artifact is a compressed proof.
    pub compressed: bool,
    /// The size parameter, where the caller set one.
    pub k: Option<usize>,
    /// Where the public parameters are, where the caller named a place.
    pub pp_file: Option<PathBuf>,
    /// The prover that made the proof, where the caller named one.
    pub prover_impl: Option<ProverImpl>,
    /// Where the compression key is, where the caller named a place.
    pub key_file: Option<PathBuf>,
}

/// The defaults that the configuration holds.
#[derive(Clone, Copy, Debug, PartialEq, Eq)]
pub struct VmConfig {
    /// The size parameter.
    pub k: usize,
    /// The prover.
    pub prover: ProverImpl,
}

/// The report of a path that could not be settled.
pub open spec fn config_failure(route: Route, k: usize, role: PathRole, error: ConfigError) -> Report {
    Report { outcome: Outcome::Invalid(Failure::Config { role, error }), route, k }
}

/// Whether a session is the fresh one of a route with the given job, the
/// paths compared as text.
pub open spec fn reads(
    session: Session,
    file: PathBuf,
    route: Route,
    k: usize,
    shape: ProofShape,
    kind: NovaImpl,
    params_path: Seq<char>,
    key_path: Option<Seq<char>>,
) -> bool {
    &&& session.file == file
    &&& session.route == route
    &&& session.k == k
    &&& session.indicator == Indicator::NotStarted
    &&& session.stage matches Stage::Reading { job }
    &&& job.shape == shape
    &&& job.kind == kind
    &&& job.params_path@ == params_path
    &&& match key_path {
        Some(text) => job.key_path is Some && job.key_path->0@ == text,
        None => job.key_path is None,
    }
}

/// What `verify_proof` returns.
pub open spec fn opened_plain(
    result: Result<Session, Report>,
    file: PathBuf,
    k: usize,
    prover: ProverImpl,
    pp_file: Option<PathBuf>,
    cache_root: Option<PathBuf>,
) -> bool {
    match prover {
        ProverImpl::Jolt => result == Ok::<Session, Report>(
            Session {
                file,
                route: Route::Alternate,
                k,
                stage: Stage::Delegating,
                indicator: Indicator::NotStarted,
            },
        ),
        ProverImpl::Nova(nova_impl) => match resolved_params(pp_file, cache_root, nova_impl, k as nat) {
            Ok(params_path) => result is Ok && reads(
                result->Ok_0,
                file,
                Route::Nova(nova_impl),
                k,
                nova_impl.shape(),
                nova_impl,
                params_path,
                None,
            ),
            Err(error) => result == Err::<Session, Report>(
                config_failure(Route::Nova(nova_impl), k, PathRole::Params, error),
            ),
        },
    }
}

/// What `verify_proof_compressed` returns. The parameters' path is settled
/// first; the key's path is looked at only where that succeeded.
pub open spec fn opened_compressed(
    result: Result<Session, Report>,
    file: PathBuf,
    k: usize,
    pp_file: Option<PathBuf>,
    key_file: Option<PathBuf>,
    cache_root: Option<PathBuf>,
) -> bool {
    match resolved_params(pp_file, cache_root, NovaImpl::ParallelCompressible, k as nat) {
        Ok(params_path) => match resolved_key(key_file, cache_root, k as nat) {
            Ok(key_path) => result is Ok && reads(
                result->Ok_0,
                file,
                Route::Compressed,
                k,
                ProofShape::Compressed,
                NovaImpl::ParallelCompressible,
                params_path,
                Some(key_path),
            ),
            Err(error) => result == Err::<Session, Report>(
                config_failure(Route::Compressed, k, PathRole::Key, error),
            ),
        },
        Err(error) => result == Err::<Session, Report>(
            config_failure(Route::Compressed, k, PathRole::Params, error),
        ),
    }
}

impl VerifyArgs {
    /// The size parameter: the caller's, or else the configured one.
    pub open spec fn merged_k(self, config: VmConfig) -> usize {
        match self.k {
            Some(k) => k,
            None => config.k,
        }
    }

    /// The prover: the caller's, or else the configured one.
    pub open spec fn merged_prover(self, config: VmConfig) -> ProverImpl {
        match self.prover_impl {
            Some(prover) => prover,
            None => config.prover,
        }
    }

    /// The route that the merged request takes.
    pub open spec fn route(self, config: VmConfig) -> Route {
        Route::select(self.merged_prover(config), self.compressed)
    }

    /// Whether settling the paths looks at the cache directory: not on the
    /// alternate route, and not where every path that is looked at was named.
    pub open spec fn consults_cache(self, config: VmConfig) -> bool {
        match self.route(config) {
            Route::Alternate => false,
            Route::Nova(_) => self.pp_file is None,
            Route::Compressed => match self.pp_file {
                None => true,
                Some(path) => text_of(path) is Ok && self.key_file is None,
            },
        }
    }

    /// Whether settling the paths looks at the cache directory. Where it does
    /// not, none need be determined.
    pub fn needs_cache_root(&self, config: &VmConfig) -> (needed: bool)
        ensures
            needed == self.consults_cache(*config),
    {
        let prover = match self.prover_impl {
            Some(prover) => prover,
            None => config.prover,
        };
        match Route::choose_route(prover, self.compressed) {
            Route::Alternate => false,
            Route::Nova(_) => self.pp_file.is_none(),
            Route::Compressed => match &self.pp_file {
                None => true,
                Some(path) => has_text(path) && self.key_file.is_none(),
            },
        }
    }
}

/// What `handle_command` returns.
pub open spec fn opened(
    result: Result<Session, Report>,
    args: VerifyArgs,
    config: VmConfig,
    cache_root: Option<PathBuf>,
) -> bool {
    match args.route(config) {
        Route::Alternate => opened_plain(
            result,
            args.file,
            args.merged_k(config),
            ProverImpl::Jolt,
            args.pp_file,
            cache_root,
        ),
        Route::Compressed => opened_compressed(
            result,
            args.file,
            args.merged_k(config),
            args.pp_file,
            args.key_file,
            cache_root,
        ),
        Route::Nova(nova_impl) => opened_plain(
            result,
            args.file,
            args.merged_k(config),
            ProverImpl::Nova(nova_impl),
            args.pp_file,
            cache_root,
        ),
    }
}

/// The session that reads a proof of one Nova implementation, or the report
/// of the parameters' path that could not be settled.
pub open spec fn plain_opening(
    file: PathBuf,
    k: usize,
    nova_impl: NovaImpl,
    params_path: Result<String, ConfigError>,
) -> Result<Session, Report> {
    match params_path {
        Ok(params_path) => Ok(
            Session {
                file,
                route: Route::Nova(nova_impl),
                k,
                stage: Stage::Reading {
                    job: Job { shape: nova_impl.shape(), kind: nova_impl, params_path, key_path: None },
                },
                indicator: Indicator::NotStarted,
            },
        ),
        Err(error) => Err(config_failure(Route::Nova(nova_impl), k, PathRole::Params, error)),
    }
}

/// The session that reads a compressed proof, or the report of the first path
/// that could not be settled: the parameters' before the key's.
pub open spec fn compressed_opening(
    file: PathBuf,
    k: usize,
    params_path: Result<String, ConfigError>,
    key_path: Result<String, ConfigError>,
) -> Result<Session, Report> {
    match params_path {
        Ok(params_path) => match key_path {
            Ok(key_path) => Ok(
                Session {
                    file,
                    route: Route::Compressed,
                    k,
                    stage: Stage::Reading {
                        job: Job {
                            shape: ProofShape::Compressed,
                            kind: NovaImpl::ParallelCompressible,
                            params_path,
                            key_path: Some(key_path),
                        },
                    },
                    indicator: Indicator::NotStarted,
                },
            ),
            Err(error) => Err(config_failure(Route::Compressed, k, PathRole::Key, error)),
        },
        Err(error) => Err(config_failure(Route::Compressed, k, PathRole::Params, error)),
    }
}

/// The report of a path that could not be settled.
fn refuse(route: Route, k: usize, role: PathRole, error: ConfigError) -> (report: Report)
    ensures
        report == config_failure(route, k, role, error),
{
    Report { outcome: Outcome::Invalid(Failure::Config { role, error }), route, k }
}

/// Opens the verification of a proof of one Nova implementation, given what
/// came of settling the path of its parameters.
pub fn open_plain(
    file: PathBuf,
    k: usize,
    nova_impl: NovaImpl,
    params_path: Result<String, ConfigError>,
) -> (session: Result<Session, Report>)
    ensures
        session == plain_opening(file, k, nova_impl, params_path),
        session matches Ok(s) ==> s.is_fresh() && s.wf(),
{
    let route = Route::Nova(nova_impl);
    match params_path {
        Ok(params_path) => {
            let shape = nova_impl.proof_shape();
            Ok(Session::begin(file, route, k, Job { shape, kind: nova_impl, params_path, key_path: None }))
        },
        Err(error) => Err(refuse(route, k, PathRole::Params, error)),
    }
}

/// Opens the verification of a compressed proof, given what came of settling
/// the paths of the parameters and of the key.
pub fn open_compressed(
    file: PathBuf,
    k: usize,
    params_path: Result<String, ConfigError>,
    key_path: Result<String, ConfigError>,
) -> (session: Result<Session, Report>)
    ensures
        session == compressed_opening(file, k, params_path, key_path),
        session matches Ok(s) ==> s.is_fresh() && s.wf(),
{
    let route = Route::Compressed;
    let params_path = match params_path {
        Ok(path) => path,
        Err(error) => {
            return Err(refuse(route, k, PathRole::Params, error));
        },
    };
    let key_path = match key_path {
        Ok(path) => path,
        Err(error) => {
            return Err(refuse(route, k, PathRole::Key, error));
        },
    };
    let job = Job {
        shape: ProofShape::Compressed,
        kind: NovaImpl::ParallelCompressible,
        params_path,
        key_path: Some(key_path),
    };
    Ok(Session::begin(file, route, k, job))
}

/// Opens the verification of a proof as its prover left it. For the alternate
/// scheme the session delegates and no path is looked at. For a Nova
/// implementation the path of its parameters is settled, and the session
/// reads the artifact in that implementation's shape.
pub fn verify_proof(
    path: PathBuf,
    k: usize,
    prover: ProverImpl,
    pp_file: Option<PathBuf>,
    cache_root: Option<PathBuf>,
) -> (session: Result<Session, Report>)
    ensures
        opened_plain(session, path, k, prover, pp_file, cache_root),
        session matches Ok(s) ==> s.is_fresh() && s.wf() && s.route == Route::select(prover, false),
        session matches Err(report) ==> report.outcome matches Outcome::Invalid(failure) && failure is Config,
{
    match prover {
        ProverImpl::Jolt => Ok(Session::delegate(path, k)),
        ProverImpl::Nova(nova_impl) => {
            let params_path = resolve_params_path(&pp_file, &cache_root, nova_impl, k);
            open_plain(path, k, nova_impl, params_path)
        },
    }
}

/// Opens the verification of a compressed proof. The paths of the
/// compressible parameters and of the compression key are settled, and the
/// session reads the artifact as a compressed proof. Where neither path can
/// be settled, the report is about the parameters.
pub fn verify_proof_compressed(
    path: PathBuf,
    k: usize,
    pp_file: Option<PathBuf>,
    key_file: Option<PathBuf>,
    cache_root: Option<PathBuf>,
) -> (session: Result<Session, Report>)
    ensures
        opened_compressed(session, path, k, pp_file, key_file, cache_root),
        session matches Ok(s) ==> s.is_fresh() && s.wf() && s.route == Route::Compressed,
        session matches Err(report) ==> report.outcome matches Outcome::Invalid(failure) && failure is Config,
{
    let params_path = resolve_params_path(&pp_file, &cache_root, NovaImpl::ParallelCompressible, k);
    let key_path = resolve_key_path(&key_file, &cache_root, k);
    open_compressed(path, k, params_path, key_path)
}

/// Opens a verification. What the caller left unset is taken from the
/// configuration. The alternate scheme is delegated whether or not the proof
/// is said to be compressed; else a compressed proof is verified as one, and
/// any other as the chosen Nova implementation left it.
pub fn handle_command(args: VerifyArgs, config: VmConfig, cache_root: Option<PathBuf>) -> (session: Result<
    Session,
    Report,
>)
    ensures
        opened(session, args, config, cache_root),
        session matches Ok(s) ==> s.is_fresh() && s.wf() && s.route == args.route(config) && s.k
            == args.merged_k(config),
        session matches Err(report) ==> report.route == args.route(config) && report.k == args.merged_k(
            config,
        ) && report.exit_status() == 1,
{
    let VerifyArgs { file, compressed, k, pp_file, prover_impl, key_file } = args;
    let k = match k {
        Some(k) => k,
        None => config.k,
    };
    let prover = match prover_impl {
        Some(prover) => prover,
        None => config.prover,
    };
    match Route::choose_route(prover, compressed) {
        Route::Alternate => verify_proof(file, k, ProverImpl::Jolt, pp_file, cache_root),
        Route::Compressed => verify_proof_compressed(file, k, pp_file, key_file, cache_root),
        Route::Nova(nova_impl) => verify_proof(file, k, ProverImpl::Nova(nova_impl), pp_file, cache_root),
    }
}

/// The cache directory matters only where it is consulted: a request that
/// does not consult it is opened in the same way whatever the directory is,
/// and whether there is one.
pub proof fn law_cache_is_read_only_when_consulted(
    session: Result<Session, Report>,
    args: VerifyArgs,
    config: VmConfig,
    cache_root: Option<PathBuf>,
    other_root: Option<PathBuf>,
)
    requires
        !args.consults_cache(config),
        opened(session, args, config, cache_root),
    ensures
        opened(session, args, config, other_root),
{
}

/// The alternate scheme is always delegated: no path is settled, nothing is
/// read in any of the dispatcher's own shapes, and the session waits for the
/// alternate verifier's word.
pub proof fn law_alternate_is_delegated(
    session: Result<Session, Report>,
    args: VerifyArgs,
    config: VmConfig,
    cache_root: Option<PathBuf>,
)
    requires
        args.merged_prover(config) == ProverImpl::Jolt,
        opened(session, args, config, cache_root),
    ensures
        session is Ok,
        session->Ok_0.pending() == (Action::Delegate { file: args.file }),
        session->Ok_0.route == Route::Alternate,
{
}

} // verus!

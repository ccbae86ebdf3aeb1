use nexus_verify::command::{handle_command, verify_proof, verify_proof_compressed, VerifyArgs, VmConfig};
use nexus_verify::file_names::{format_key_file, format_params_file};
use nexus_verify::paths::{resolve, resolve_key_path, resolve_params_path, ConfigError};
use nexus_verify::report::{Failure, Level, Outcome, PathRole, Report};
use nexus_verify::scheme::{Artifact, NovaImpl, ProofShape, ProverImpl, Route};
use nexus_verify::session::Action;
use std::path::PathBuf;

#[test]
fn parameter_file_names() {
    assert_eq!(format_params_file(NovaImpl::Sequential, 16), "nexus-public-seq-16.zst");
    assert_eq!(format_params_file(NovaImpl::Parallel, 16), "nexus-public-par-16.zst");
    assert_eq!(format_params_file(NovaImpl::ParallelCompressible, 16), "nexus-public-par-com-16.zst");
    assert_eq!(format_params_file(NovaImpl::Sequential, 0), "nexus-public-seq-0.zst");
    assert_eq!(format_params_file(NovaImpl::Parallel, 7), "nexus-public-par-7.zst");
    assert_eq!(format_params_file(NovaImpl::Parallel, 10), "nexus-public-par-10.zst");
    assert_eq!(format_params_file(NovaImpl::Parallel, 1203), "nexus-public-par-1203.zst");
}

#[test]
fn key_file_names() {
    assert_eq!(format_key_file(0), "nexus-spartan-key-0.zst");
    assert_eq!(format_key_file(9), "nexus-spartan-key-9.zst");
    assert_eq!(format_key_file(16), "nexus-spartan-key-16.zst");
    assert_eq!(format_key_file(100), "nexus-spartan-key-100.zst");
    assert_eq!(format_key_file(9876543210), "nexus-spartan-key-9876543210.zst");
}

#[test]
fn file_names_render_every_size_in_decimal() {
    for k in [0usize, 1, 9, 10, 11, 99, 100, 101, 65535, 1_000_000, usize::MAX - 1, usize::MAX] {
        assert_eq!(format_key_file(k), format!("nexus-spartan-key-{}.zst", k));
        assert_eq!(format_params_file(NovaImpl::ParallelCompressible, k), format!("nexus-public-par-com-{}.zst", k));
    }
}

#[test]
fn file_names_do_not_collide() {
    let kinds = [NovaImpl::Sequential, NovaImpl::Parallel, NovaImpl::ParallelCompressible];
    let mut names = Vec::new();
    for kind in kinds {
        for k in 0..130usize {
            names.push(format_params_file(kind, k));
        }
    }
    for k in 0..130usize {
        names.push(format_key_file(k));
    }
    for i in 0..names.len() {
        for j in 0..i {
            assert_ne!(names[i], names[j]);
        }
    }
    assert_eq!(format_params_file(NovaImpl::Parallel, 42), format_params_file(NovaImpl::Parallel, 42));
}

#[test]
fn implementation_tags() {
    assert_eq!(NovaImpl::Sequential.tag_str(), "seq");
    assert_eq!(NovaImpl::Parallel.tag_str(), "par");
    assert_eq!(NovaImpl::ParallelCompressible.tag_str(), "par-com");
}

#[test]
fn explicit_path_is_taken_verbatim() {
    let explicit = Some(PathBuf::from("some dir/../params file.bin"));
    for root in [None, Some(PathBuf::from("/cache")), Some(PathBuf::from(""))] {
        assert_eq!(resolve(&explicit, &root, "name.zst"), Ok(String::from("some dir/../params file.bin")));
        assert_eq!(
            resolve_params_path(&explicit, &root, NovaImpl::Parallel, 3),
            Ok(String::from("some dir/../params file.bin"))
        );
        assert_eq!(resolve_key_path(&explicit, &root, 3), Ok(String::from("some dir/../params file.bin")));
    }
    assert_eq!(resolve(&Some(PathBuf::from("")), &None, "name.zst"), Ok(String::new()));
}

#[test]
fn default_path_is_the_named_file_under_the_cache() {
    let root = Some(PathBuf::from("/home/user/.cache"));
    assert_eq!(resolve(&None, &root, "name.zst"), Ok(String::from("/home/user/.cache/name.zst")));
    assert_eq!(
        resolve_params_path(&None, &root, NovaImpl::Sequential, 16),
        Ok(String::from("/home/user/.cache/nexus-public-seq-16.zst"))
    );
    assert_eq!(
        resolve_params_path(&None, &root, NovaImpl::ParallelCompressible, 4),
        Ok(String::from("/home/user/.cache/nexus-public-par-com-4.zst"))
    );
    assert_eq!(resolve_key_path(&None, &root, 16), Ok(String::from("/home/user/.cache/nexus-spartan-key-16.zst")));
    let relative = Some(PathBuf::from("target/cache/"));
    assert_eq!(
        resolve_key_path(&None, &relative, 5),
        Ok(String::from("target/cache/nexus-spartan-key-5.zst"))
    );
}

#[test]
fn resolution_is_repeatable() {
    let root = Some(PathBuf::from("/cache"));
    for kind in [NovaImpl::Sequential, NovaImpl::Parallel, NovaImpl::ParallelCompressible] {
        for k in [0usize, 1, 16, 4096] {
            let first = resolve_params_path(&None, &root, kind, k);
            let second = resolve_params_path(&None, &root, kind, k);
            assert_eq!(first, second);
            assert!(first.is_ok());
        }
    }
    assert_eq!(resolve_key_path(&None, &root, 16), resolve_key_path(&None, &root, 16));
}

#[test]
fn no_cache_directory_and_no_explicit_path() {
    assert_eq!(resolve(&None, &None, "name.zst"), Err(ConfigError::NoCacheRoot));
    assert_eq!(resolve_params_path(&None, &None, NovaImpl::Parallel, 1), Err(ConfigError::NoCacheRoot));
    assert_eq!(resolve_key_path(&None, &None, 1), Err(ConfigError::NoCacheRoot));
}

#[test]
fn unsettled_parameters_path_is_reported_before_anything_starts() {
    let report = verify_proof(PathBuf::from("proof"), 16, ProverImpl::Nova(NovaImpl::Parallel), None, None).unwrap_err();
    assert_eq!(
        report,
        Report {
            outcome: Outcome::Invalid(Failure::Config { role: PathRole::Params, error: ConfigError::NoCacheRoot }),
            route: Route::Nova(NovaImpl::Parallel),
            k: 16,
        }
    );
    assert_eq!(report.exit_code(), 1);
    assert_eq!(report.level(), Level::Error);
    assert_eq!(report.headline(), "Proof could not be verified");
    assert_eq!(report.detail(), None);
}

#[test]
fn unsettled_key_path_is_reported_after_the_parameters_path() {
    let report = verify_proof_compressed(PathBuf::from("proof"), 16, Some(PathBuf::from("pp.zst")), None, None).unwrap_err();
    assert_eq!(
        report.outcome,
        Outcome::Invalid(Failure::Config { role: PathRole::Key, error: ConfigError::NoCacheRoot })
    );
    assert_eq!(report.route, Route::Compressed);
    let report = verify_proof_compressed(PathBuf::from("proof"), 16, None, Some(PathBuf::from("key.zst")), None).unwrap_err();
    assert_eq!(
        report.outcome,
        Outcome::Invalid(Failure::Config { role: PathRole::Params, error: ConfigError::NoCacheRoot })
    );
    let report = verify_proof_compressed(PathBuf::from("proof"), 16, None, None, None).unwrap_err();
    assert_eq!(
        report.outcome,
        Outcome::Invalid(Failure::Config { role: PathRole::Params, error: ConfigError::NoCacheRoot })
    );
    assert_eq!(report.headline(), "Compressed proof could not be verified");
}

#[test]
fn caller_settings_override_the_configuration() {
    let config = VmConfig { k: 16, prover: ProverImpl::Nova(NovaImpl::Parallel) };
    let root = Some(PathBuf::from("/c"));
    let unset = VerifyArgs {
        file: PathBuf::from("proof"),
        compressed: false,
        k: None,
        pp_file: None,
        prover_impl: None,
        key_file: None,
    };
    let session = handle_command(unset.clone(), config, root.clone()).unwrap();
    assert_eq!(session.route, Route::Nova(NovaImpl::Parallel));
    assert_eq!(session.k, 16);

    let mut set = unset.clone();
    set.k = Some(3);
    set.prover_impl = Some(ProverImpl::Nova(NovaImpl::Sequential));
    let session = handle_command(set, config, root.clone()).unwrap();
    assert_eq!(session.route, Route::Nova(NovaImpl::Sequential));
    assert_eq!(session.k, 3);
    let session = session.step(nexus_verify::session::Event::Artifact(Artifact::Sequential { step_num: 2 }));
    assert_eq!(
        session.next_action(),
        Action::LoadParams {
            regenerate: false,
            kind: NovaImpl::Sequential,
            k: 3,
            path: String::from("/c/nexus-public-seq-3.zst"),
        }
    );

    let mut compressed = unset.clone();
    compressed.compressed = true;
    compressed.prover_impl = Some(ProverImpl::Nova(NovaImpl::Sequential));
    let session = handle_command(compressed, config, root).unwrap();
    assert_eq!(session.route, Route::Compressed);
    assert_eq!(session.next_action(), Action::ReadArtifact { file: PathBuf::from("proof"), shape: ProofShape::Compressed });
}

#[test]
fn cache_directory_is_needed_only_where_a_path_is_left_open() {
    let seq = VmConfig { k: 16, prover: ProverImpl::Nova(NovaImpl::Sequential) };
    let jolt = VmConfig { k: 16, prover: ProverImpl::Jolt };
    let mut request = VerifyArgs {
        file: PathBuf::from("proof"),
        compressed: false,
        k: None,
        pp_file: None,
        prover_impl: None,
        key_file: None,
    };
    assert!(request.needs_cache_root(&seq));
    assert!(!request.needs_cache_root(&jolt));
    request.pp_file = Some(PathBuf::from("pp.zst"));
    assert!(!request.needs_cache_root(&seq));
    request.compressed = true;
    assert!(request.needs_cache_root(&seq));
    assert!(!request.needs_cache_root(&jolt));
    request.key_file = Some(PathBuf::from("key.zst"));
    assert!(!request.needs_cache_root(&seq));
    request.pp_file = None;
    assert!(request.needs_cache_root(&seq));

    // Where it is not needed, it changes nothing.
    request.pp_file = Some(PathBuf::from("pp.zst"));
    let without = handle_command(request.clone(), seq, None);
    let with = handle_command(request, seq, Some(PathBuf::from("/cache")));
    assert_eq!(without, with);
    assert!(without.is_ok());
}

#[test]
fn routes_and_what_they_read() {
    assert_eq!(Route::choose_route(ProverImpl::Jolt, false), Route::Alternate);
    assert_eq!(Route::choose_route(ProverImpl::Jolt, true), Route::Alternate);
    assert_eq!(Route::choose_route(ProverImpl::Nova(NovaImpl::Parallel), true), Route::Compressed);
    assert_eq!(Route::choose_route(ProverImpl::Nova(NovaImpl::Parallel), false), Route::Nova(NovaImpl::Parallel));

    assert_eq!(NovaImpl::Sequential.proof_shape(), ProofShape::Sequential);
    assert_eq!(NovaImpl::Parallel.proof_shape(), ProofShape::Parallel);
    assert_eq!(NovaImpl::ParallelCompressible.proof_shape(), ProofShape::ParallelCompressible);

    assert_eq!(Route::Compressed.indicator_title(), "Verifying compressed");
    assert_eq!(Route::Nova(NovaImpl::Parallel).indicator_title(), "Verifying");
    assert_eq!(Route::Alternate.indicator_title(), "Verifying");
    assert_eq!(Route::Compressed.indicator_label(), "proof");
    assert_eq!(Route::Nova(NovaImpl::Sequential).indicator_label(), "proof");
    assert_eq!(Route::Nova(NovaImpl::Parallel).indicator_label(), "root");
    assert_eq!(Route::Nova(NovaImpl::ParallelCompressible).indicator_label(), "root");
}

#[test]
fn artifacts_and_their_shapes() {
    assert_eq!(Artifact::Sequential { step_num: 5 }.proof_shape(), ProofShape::Sequential);
    assert_eq!(Artifact::Parallel.proof_shape(), ProofShape::Parallel);
    assert_eq!(Artifact::ParallelCompressible.proof_shape(), ProofShape::ParallelCompressible);
    assert_eq!(Artifact::Compressed.proof_shape(), ProofShape::Compressed);
    assert_eq!(Artifact::Sequential { step_num: 5 }.step_count(), Some(5));
    assert_eq!(Artifact::Parallel.step_count(), None);
    assert_eq!(Artifact::Compressed.step_count(), None);
}

use plskit::error::{ArgError, Block, CountName, ErrorKind};
use plskit::find_k::{
    check_find_k_optimal_request, check_find_k_sequence_request, cv_plan, FindKOptimalOpts,
    Selector,
};
use plskit::fit::{check_fit_k, check_same_rows, resolve_par, validate_keep, FitOpts, KSpec, ParChoice};
use plskit::pls3::{check_pls3_k, check_pls3_rows, check_transform_block, Pls3FitOpts, TransformWhich};
use plskit::pls3_signal_test::{check_pls3_test_request, Pls3ConfirmatoryTestOpts};
use plskit::predict::check_predict_width;
use plskit::preprocess::check_preprocess_rows;
use plskit::rotate::{check_loading_width, check_rotate_k};
use plskit::rotation_stability::{
    bootstrap_stream_seed, check_rotation_stability_request, BOOT_SEED_OFFSET,
};
use plskit::signal_test::{
    check_confirmatory_args, check_no_refit_scope, check_split_floor, check_test_keep,
    use_test_train_kernel, ConfirmatoryArgs, ConfirmatoryMethod,
};
use plskit::version;

#[test]
fn version_is_the_package_version() {
    assert_eq!(version(), "0.5.0");
}

#[test]
fn error_kind_codes_are_snake_case_variant_names() {
    assert_eq!(ErrorKind::DimensionMismatch.code(), "dimension_mismatch");
    assert_eq!(ErrorKind::KExceedsMax.code(), "k_exceeds_max");
    assert_eq!(ErrorKind::NonFiniteInput.code(), "non_finite_input");
    assert_eq!(ErrorKind::ConvergenceFailure.code(), "convergence_failure");
    assert_eq!(ErrorKind::InvalidArgument.code(), "invalid_argument");
    assert_eq!(ErrorKind::Internal.code(), "internal");
    assert_eq!(
        ErrorKind::RotationMethodNotImplemented.code(),
        "rotation_method_not_implemented"
    );
    assert_eq!(ErrorKind::InvalidArgs.code(), "invalid_args");
    assert_eq!(ErrorKind::InvalidInput.code(), "invalid_input");
    assert_eq!(ErrorKind::ShapeMismatch.code(), "shape_mismatch");
    assert_eq!(ErrorKind::AlreadyRotated.code(), "already_rotated");
    assert_eq!(ErrorKind::InvalidWeights.code(), "invalid_weights");
    assert_eq!(ErrorKind::ResamplingDegenerate.code(), "resampling_degenerate");
    assert_eq!(
        ErrorKind::ResampleFailureRateExceeded.code(),
        "resample_failure_rate_exceeded"
    );
}

#[test]
fn arg_error_kinds() {
    assert_eq!(
        ArgError::DimensionMismatch { x: (10, 5), y: 9 }.code(),
        "dimension_mismatch"
    );
    assert_eq!(ArgError::KExceedsMax { k: 4, k_max: 3 }.code(), "k_exceeds_max");
    assert_eq!(ArgError::KZero.code(), "invalid_argument");
    assert_eq!(
        ArgError::BlockColumnMismatch {
            block: Block::X,
            got: 9,
            expected: 7
        }
        .code(),
        "shape_mismatch"
    );
    assert_eq!(
        ArgError::LoadingWidthMismatch { l_cols: 2, k: 3 }.kind(),
        ErrorKind::ShapeMismatch
    );
    assert_eq!(ArgError::RotationNoComponents.code(), "invalid_input");
    let dbg = format!("{:?}", ArgError::DimensionMismatch { x: (10, 5), y: 9 });
    assert!(dbg.contains("10"));
    assert!(dbg.contains('9'));
}

#[test]
fn confirmatory_method_names() {
    assert_eq!(ConfirmatoryMethod::RawPerm.as_str(), "raw_perm");
    assert_eq!(ConfirmatoryMethod::SplitNb.as_str(), "split_nb");
    assert_eq!(ConfirmatoryMethod::SplitPermNr.as_str(), "split_perm_nr");
    assert_eq!(ConfirmatoryMethod::SplitPerm.as_str(), "split_perm");
    assert_eq!(ConfirmatoryMethod::Score.as_str(), "score");
    assert_eq!(ConfirmatoryMethod::E.as_str(), "e");
}

#[test]
fn confirmatory_defaults_round_trip_their_method() {
    for m in [
        ConfirmatoryMethod::RawPerm,
        ConfirmatoryMethod::SplitNb,
        ConfirmatoryMethod::SplitPermNr,
        ConfirmatoryMethod::SplitPerm,
        ConfirmatoryMethod::Score,
        ConfirmatoryMethod::E,
    ] {
        let a = ConfirmatoryArgs::defaults_for(m);
        assert_eq!(a.method(), m);
        assert!(a.validate_counts().is_ok());
    }
    assert!(matches!(
        ConfirmatoryArgs::defaults_for(ConfirmatoryMethod::RawPerm),
        ConfirmatoryArgs::RawPerm {
            n_perm: 1000,
            n_folds: 5
        }
    ));
    assert!(matches!(
        ConfirmatoryArgs::defaults_for(ConfirmatoryMethod::SplitNb),
        ConfirmatoryArgs::SplitNb { n_splits: 50 }
    ));
}

#[test]
fn confirmatory_count_floors() {
    let e = ConfirmatoryArgs::RawPerm {
        n_perm: 10,
        n_folds: 1,
    }
    .validate_counts()
    .unwrap_err();
    assert!(matches!(
        e,
        ArgError::CountTooSmall {
            count: CountName::NFolds,
            got: 1,
            min: 2
        }
    ));
    let e = ConfirmatoryArgs::RawPerm {
        n_perm: 0,
        n_folds: 5,
    }
    .validate_counts()
    .unwrap_err();
    assert!(matches!(
        e,
        ArgError::CountTooSmall {
            count: CountName::NPerm,
            ..
        }
    ));
    let e = ConfirmatoryArgs::SplitPerm {
        n_perm: 0,
        n_splits: 1,
    }
    .validate_counts()
    .unwrap_err();
    assert!(matches!(
        e,
        ArgError::CountTooSmall {
            count: CountName::NSplits,
            ..
        }
    ));
    assert!(ConfirmatoryArgs::Score.validate_counts().is_ok());
    assert!(matches!(
        check_confirmatory_args(&ConfirmatoryArgs::E, 6, 5),
        Err(ArgError::KExceedsMax { k: 6, k_max: 5 })
    ));
    assert!(check_confirmatory_args(&ConfirmatoryArgs::E, 5, 5).is_ok());
}

#[test]
fn confirmatory_keep_checks() {
    assert!(check_test_keep(None, 20, true).is_ok());
    assert!(check_test_keep(Some(3), 20, false).is_ok());
    assert!(matches!(check_test_keep(Some(0), 20, false), Err(ArgError::KeepZero)));
    assert!(matches!(
        check_test_keep(Some(21), 20, false),
        Err(ArgError::KeepExceedsFeatures {
            keep: 21,
            n_features: 20
        })
    ));
    assert!(matches!(check_test_keep(Some(3), 20, true), Err(ArgError::KeepWithCi)));
}

#[test]
fn split_floor_and_no_refit_scope() {
    assert!(check_split_floor(6, 1).is_ok());
    assert!(matches!(
        check_split_floor(5, 1),
        Err(ArgError::SplitFloor { n: 5, k: 1 })
    ));
    assert!(check_split_floor(3, 10).is_err());
    assert!(check_no_refit_scope(1, false, None).is_ok());
    assert!(matches!(
        check_no_refit_scope(2, true, Some(1)),
        Err(ArgError::NoRefitNeedsKOne { k: 2 })
    ));
    assert!(matches!(
        check_no_refit_scope(1, true, Some(1)),
        Err(ArgError::NoRefitWeighted)
    ));
    assert!(matches!(
        check_no_refit_scope(1, false, Some(1)),
        Err(ArgError::NoRefitSparseKeep)
    ));
}

#[test]
fn fit_checks() {
    assert!(matches!(
        check_same_rows(10, 5, 9),
        Err(ArgError::DimensionMismatch { x: (10, 5), y: 9 })
    ));
    assert!(check_same_rows(10, 5, 10).is_ok());
    assert!(matches!(check_fit_k(KSpec::Fixed(0), 5, None), Err(ArgError::KZero)));
    assert!(matches!(
        check_fit_k(KSpec::Fixed(6), 5, None),
        Err(ArgError::KExceedsMax { k: 6, k_max: 5 })
    ));
    assert!(matches!(
        check_fit_k(KSpec::Fixed(2), 5, Some(0)),
        Err(ArgError::KeepZero)
    ));
    assert!(matches!(
        check_fit_k(KSpec::Fixed(2), 5, Some(6)),
        Err(ArgError::KeepExceedsFeatures {
            keep: 6,
            n_features: 5
        })
    ));
    assert!(check_fit_k(KSpec::Fixed(2), 5, Some(5)).is_ok());
    assert!(validate_keep(1, 1).is_ok());
}

#[test]
fn fit_opts_default_and_parallel_threshold() {
    let o = FitOpts::default();
    assert!(!o.pre_standardized);
    assert!(o.check_n_eff);
    assert_eq!(o.par, ParChoice::Auto);
    assert!(o.keep.is_none());
    assert!(!resolve_par(ParChoice::Auto, 200, 800, 5));
    assert!(resolve_par(ParChoice::Auto, 200, 1000, 5));
    assert!(!resolve_par(ParChoice::Sequential, 200, 1000, 5));
    assert!(resolve_par(ParChoice::Auto, usize::MAX, 3, 1));
    assert!(!resolve_par(ParChoice::Auto, usize::MAX, 3, 0));
}

#[test]
fn pls3_checks() {
    let o = Pls3FitOpts::default();
    assert!(!o.pre_standardized_x && !o.pre_standardized_y);
    assert!(matches!(
        check_pls3_rows(10, 4, 9, false),
        Err(ArgError::DimensionMismatch { .. })
    ));
    assert!(matches!(
        check_pls3_rows(40, 6, 40, true),
        Err(ArgError::WeightsNotSupported)
    ));
    assert!(matches!(
        check_pls3_k(4, 6, 3),
        Err(ArgError::KExceedsMax { k: 4, k_max: 3 })
    ));
    assert!(matches!(check_pls3_k(0, 6, 3), Err(ArgError::KZero)));
    assert!(check_pls3_k(3, 6, 3).is_ok());
}

#[test]
fn transform_which_names_and_blocks() {
    assert_eq!(TransformWhich::XScores.as_str(), "x_scores");
    assert_eq!(TransformWhich::YScores.as_str(), "y_scores");
    assert_eq!(TransformWhich::Both.as_str(), "both");
    assert!(TransformWhich::XScores.needs_x() && !TransformWhich::XScores.needs_y());
    assert!(!TransformWhich::YScores.needs_x() && TransformWhich::YScores.needs_y());
    assert!(TransformWhich::Both.needs_x() && TransformWhich::Both.needs_y());
}

#[test]
fn transform_block_checks() {
    // Not asked for: nothing to check.
    assert!(check_transform_block(TransformWhich::YScores, Block::X, None, 7, 2, 2, 7, 7).is_ok());
    assert!(matches!(
        check_transform_block(TransformWhich::Both, Block::X, None, 7, 2, 2, 7, 7),
        Err(ArgError::BlockNotSupplied {
            which: TransformWhich::Both,
            block: Block::X
        })
    ));
    assert!(matches!(
        check_transform_block(TransformWhich::XScores, Block::X, Some(9), 7, 2, 2, 7, 7),
        Err(ArgError::BlockColumnMismatch {
            block: Block::X,
            got: 9,
            expected: 7
        })
    ));
    assert!(matches!(
        check_transform_block(TransformWhich::XScores, Block::X, Some(7), 7, 3, 2, 7, 7),
        Err(ArgError::SalienceWidthMismatch { .. })
    ));
    assert!(matches!(
        check_transform_block(TransformWhich::Both, Block::Y, Some(3), 3, 2, 2, 3, 2),
        Err(ArgError::MomentLengthMismatch { .. })
    ));
    assert!(check_transform_block(TransformWhich::Both, Block::Y, Some(3), 3, 2, 2, 3, 3).is_ok());
}

#[test]
fn pls3_test_request_checks() {
    let o = Pls3ConfirmatoryTestOpts::default();
    assert!(matches!(
        o.args,
        ConfirmatoryArgs::SplitPerm {
            n_perm: 1000,
            n_splits: 50
        }
    ));
    assert!(matches!(
        check_pls3_test_request(2, 10, 4, o.args),
        Err(ArgError::KNotOne { k: 2 })
    ));
    assert!(matches!(
        check_pls3_test_request(1, 0, 4, o.args),
        Err(ArgError::KExceedsMax { k: 1, k_max: 0 })
    ));
    for args in [
        ConfirmatoryArgs::RawPerm {
            n_perm: 10,
            n_folds: 5,
        },
        ConfirmatoryArgs::Score,
        ConfirmatoryArgs::E,
        ConfirmatoryArgs::SplitPermNr {
            n_perm: 10,
            n_splits: 10,
        },
    ] {
        assert!(matches!(
            check_pls3_test_request(1, 10, 4, args),
            Err(ArgError::MethodNotSupported { .. })
        ));
    }
    assert!(matches!(
        check_pls3_test_request(
            1,
            10,
            4,
            ConfirmatoryArgs::SplitPerm {
                n_perm: 0,
                n_splits: 10
            }
        ),
        Err(ArgError::CountTooSmall {
            count: CountName::NPerm,
            ..
        })
    ));
    assert!(matches!(
        check_pls3_test_request(1, 10, 4, ConfirmatoryArgs::SplitNb { n_splits: 1 }),
        Err(ArgError::CountTooSmall {
            count: CountName::NSplits,
            ..
        })
    ));
    assert_eq!(
        check_pls3_test_request(1, 10, 4, ConfirmatoryArgs::SplitNb { n_splits: 10 }).unwrap(),
        (None, 10)
    );
    assert_eq!(check_pls3_test_request(1, 10, 4, o.args).unwrap(), (Some(1000), 50));
}

#[test]
fn rotation_checks() {
    assert!(matches!(
        check_rotation_stability_request(20, 6, 20, 1, None),
        Err(ArgError::RotationKOne)
    ));
    assert!(matches!(
        check_rotation_stability_request(20, 10, 20, 8, None),
        Err(ArgError::RotationKAboveCap { k: 8 })
    ));
    assert!(matches!(
        check_rotation_stability_request(20, 6, 20, 7, None),
        Err(ArgError::KExceedsMax { k: 7, k_max: 6 })
    ));
    assert!(matches!(
        check_rotation_stability_request(20, 6, 20, 3, Some(2)),
        Err(ArgError::LoadingWidthMismatch { l_cols: 2, k: 3 })
    ));
    assert!(check_rotation_stability_request(20, 6, 20, 3, Some(3)).is_ok());
    assert!(matches!(check_rotate_k(0), Err(ArgError::RotationNoComponents)));
    assert!(check_rotate_k(2).is_ok());
    assert!(check_loading_width(3, 3).is_ok());
    assert!(check_loading_width(2, 3).is_err());
}

#[test]
fn predict_width_check() {
    assert!(matches!(
        check_predict_width(30, 4, 5),
        Err(ArgError::DimensionMismatch { x: (30, 4), y: 5 })
    ));
    assert!(check_predict_width(30, 5, 5).is_ok());
}

#[test]
fn find_k_checks_and_plan() {
    let o = FindKOptimalOpts::default();
    assert_eq!(o.selector, Selector::R2Se);
    assert_eq!(o.n_folds, 5);
    assert_eq!(Selector::R2Se.as_str(), "r2_se");
    assert_eq!(Selector::R2Max.as_str(), "r2_max");
    assert_eq!(Selector::Bic.as_str(), "bic");
    assert!(matches!(
        check_find_k_optimal_request(60, 5, 60, 3, Some(ConfirmatoryMethod::Score)),
        Err(ArgError::NoSequentialVariant {
            method: ConfirmatoryMethod::Score
        })
    ));
    assert!(check_find_k_optimal_request(60, 5, 60, 3, Some(ConfirmatoryMethod::SplitNb)).is_ok());
    assert!(matches!(
        check_find_k_sequence_request(60, 5, 60, 0),
        Err(ArgError::KExceedsMax { .. })
    ));
    assert!(matches!(
        check_find_k_sequence_request(60, 5, 59, 3),
        Err(ArgError::DimensionMismatch { .. })
    ));
    assert_eq!(cv_plan(80, 10, 5), (5, 10));
    assert_eq!(cv_plan(10, 10, 5), (5, 3));
    assert_eq!(cv_plan(5, 3, 10), (3, 1));
    assert_eq!(cv_plan(2, 3, 1), (2, 1));
}

#[test]
fn bootstrap_stream_seed_offsets_and_wraps() {
    assert_eq!(bootstrap_stream_seed(0), 0xB007);
    assert_eq!(bootstrap_stream_seed(1), 0xB008);
    assert_eq!(bootstrap_stream_seed(u64::MAX), BOOT_SEED_OFFSET - 1);
}

#[test]
fn preprocess_row_checks() {
    assert_eq!(check_preprocess_rows(None, None, None), Ok(()));
    assert_eq!(check_preprocess_rows(Some(5), Some(5), Some(5)), Ok(()));
    assert_eq!(check_preprocess_rows(Some(5), None, None), Ok(()));
    assert_eq!(
        check_preprocess_rows(Some(5), Some(4), None),
        Err(ArgError::DimensionMismatch { x: (5, 0), y: 4 })
    );
    assert_eq!(
        check_preprocess_rows(Some(5), None, Some(3)),
        Err(ArgError::DimensionMismatch { x: (5, 0), y: 3 })
    );
    assert_eq!(
        check_preprocess_rows(None, Some(4), Some(3)),
        Err(ArgError::DimensionMismatch { x: (3, 0), y: 4 })
    );
    // X against y is checked before the weights.
    assert_eq!(
        check_preprocess_rows(Some(5), Some(4), Some(3)),
        Err(ArgError::DimensionMismatch { x: (5, 0), y: 4 })
    );
}

#[test]
fn no_refit_kernel_route() {
    // Few rows, many features and permutations: the cross-kernel wins.
    assert!(use_test_train_kernel(30, 30, 10_000, 1001));
    // Many rows, few features: primal.
    assert!(!use_test_train_kernel(500, 500, 20, 1001));
    // Exact boundary: 5·5·(10+10) = 500 vs 10·10·10 = 1000 → kernel;
    // 5·5·(2+2) = 100 vs 10·2·2 = 40 → primal.
    assert!(use_test_train_kernel(5, 5, 10, 10));
    assert!(!use_test_train_kernel(5, 5, 2, 2));
    // Equality is not a win: 1·1·(1+1) = 2 vs 2·1·1 = 2.
    assert!(!use_test_train_kernel(1, 1, 1, 1));
}

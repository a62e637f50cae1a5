//! The argument rules: mode exclusivity, flag isolation, and path
//! normalization.

use zkvyper::arguments::{Arguments, ValidationError};
use zkvyper::request::ContractKind;

fn base() -> Arguments {
    Arguments::new()
}

#[test]
fn defaults_validate() {
    assert!(base().validate(2).is_ok());
    assert_eq!(Arguments::default(), base());
}

#[test]
fn version_must_stand_alone() {
    let mut arguments = base();
    arguments.version = true;
    assert!(arguments.validate(2).is_ok());
    assert_eq!(arguments.validate(3), Err(ValidationError::VersionExcludesOthers));
    assert_eq!(
        arguments.validate(3).unwrap_err().message(),
        "No other options are allowed while getting the compiler version."
    );
}

#[test]
fn worker_mode_must_stand_alone() {
    let mut arguments = base();
    arguments.recursive_process = true;
    assert!(arguments.validate(2).is_ok());
    assert_eq!(arguments.validate(4), Err(ValidationError::RecursiveExcludesOthers));
}

#[test]
fn at_most_one_mode() {
    let mut arguments = base();
    arguments.llvm_ir = true;
    arguments.zkasm = true;
    assert_eq!(arguments.validate(2), Err(ValidationError::MultipleModes));

    let mut arguments = base();
    arguments.llvm_ir = true;
    arguments.format = Some(String::from("combined_json"));
    assert_eq!(arguments.validate(2), Err(ValidationError::MultipleModes));

    let mut arguments = base();
    arguments.zkasm = true;
    arguments.format = Some(String::from("combined_json"));
    assert_eq!(arguments.validate(2), Err(ValidationError::MultipleModes));
}

#[test]
fn each_single_mode_is_fine() {
    let mut arguments = base();
    arguments.llvm_ir = true;
    assert!(arguments.validate(2).is_ok());

    let mut arguments = base();
    arguments.zkasm = true;
    assert!(arguments.validate(2).is_ok());

    let mut arguments = base();
    arguments.format = Some(String::from("combined_json"));
    assert!(arguments.validate(2).is_ok());
}

#[test]
fn vyper_path_only_in_vyper_mode() {
    let mut arguments = base();
    arguments.llvm_ir = true;
    arguments.vyper = Some(String::from("/usr/bin/vyper"));
    assert_eq!(arguments.validate(2), Err(ValidationError::VyperOutsideVyperMode));
}

#[test]
fn evm_version_only_in_vyper_mode() {
    let mut arguments = base();
    arguments.zkasm = true;
    arguments.evm_version = Some(String::from("cancun"));
    assert_eq!(arguments.validate(2), Err(ValidationError::EvmVersionOutsideVyperMode));
}

#[test]
fn raw_modes_reject_optimizer_settings() {
    for raw_mode_is_assembly in [false, true] {
        let raw = |mut arguments: Arguments| {
            if raw_mode_is_assembly {
                arguments.zkasm = true;
            } else {
                arguments.llvm_ir = true;
            }
            arguments
        };

        let mut arguments = raw(base());
        arguments.optimization = Some('3');
        assert_eq!(arguments.validate(2), Err(ValidationError::OptimizationOutsideVyperMode));

        let mut arguments = raw(base());
        arguments.fallback_to_optimizing_for_size = true;
        assert_eq!(arguments.validate(2), Err(ValidationError::SizeFallbackOutsideVyperMode));

        let mut arguments = raw(base());
        arguments.disable_system_request_memoization = true;
        assert_eq!(arguments.validate(2), Err(ValidationError::MemoizationOutsideVyperMode));

        let mut arguments = raw(base());
        arguments.jump_table_density_threshold = Some(10);
        assert_eq!(arguments.validate(2), Err(ValidationError::JumpTableOutsideVyperMode));

        let mut arguments = raw(base());
        arguments.suppress_warnings = Some(vec![String::from("ecrecover")]);
        assert_eq!(
            arguments.validate(2),
            Err(ValidationError::WarningSuppressionOutsideVyperMode)
        );

        let mut arguments = raw(base());
        arguments.metadata_hash = Some(String::from("keccak256"));
        assert_eq!(arguments.validate(2), Err(ValidationError::MetadataHashOutsideVyperMode));
    }
}

#[test]
fn vyper_mode_accepts_the_structured_source_settings() {
    let mut arguments = base();
    arguments.optimization = Some('3');
    arguments.fallback_to_optimizing_for_size = true;
    arguments.disable_system_request_memoization = true;
    arguments.jump_table_density_threshold = Some(10);
    arguments.suppress_warnings = Some(vec![String::from("ecrecover")]);
    arguments.metadata_hash = Some(String::from("keccak256"));
    assert!(arguments.validate(2).is_ok());
}

#[test]
fn rejection_messages_read_as_reported() {
    let mut arguments = base();
    arguments.llvm_ir = true;
    arguments.zkasm = true;
    assert_eq!(
        arguments.validate(2).unwrap_err().message(),
        "Only one modes is allowed at the same time: Vyper, LLVM IR, EraVM assembly."
    );
    let mut arguments = base();
    arguments.llvm_ir = true;
    arguments.optimization = Some('z');
    assert_eq!(
        arguments.validate(2).unwrap_err().message(),
        "LLVM optimizations are not supported in LLVM IR and EraVM assembly modes."
    );
    let mut arguments = base();
    arguments.zkasm = true;
    arguments.metadata_hash = Some(String::from("none"));
    assert_eq!(
        arguments.validate(2).unwrap_err().message(),
        "Metadata hash mode is not supported in LLVM IR and EraVM assembly modes."
    );
}

#[test]
fn first_broken_rule_wins() {
    let mut arguments = base();
    arguments.version = true;
    arguments.llvm_ir = true;
    arguments.zkasm = true;
    assert_eq!(arguments.validate(5), Err(ValidationError::VersionExcludesOthers));
    assert_eq!(arguments.validate(2), Err(ValidationError::MultipleModes));
}

#[test]
fn normalize_keeps_posix_paths() {
    let mut arguments = base();
    arguments.input_files = vec![String::from("contracts/ERC20.vy"), String::from("/abs/path.vy")];
    arguments.overwrite = true;
    arguments.normalize_input_paths().expect("plain paths must normalize");
    assert_eq!(
        arguments.input_files,
        vec![String::from("contracts/ERC20.vy"), String::from("/abs/path.vy")]
    );
    assert!(arguments.overwrite, "other fields stay untouched");
}

#[test]
fn normalize_is_idempotent() {
    let mut arguments = base();
    arguments.input_files = vec![String::from("contracts/ERC20.vy"), String::from("x.vy")];
    arguments.normalize_input_paths().expect("normalization succeeds");
    let once = arguments.input_files.clone();
    arguments.normalize_input_paths().expect("normalization succeeds again");
    assert_eq!(arguments.input_files, once);
}

#[test]
fn path_to_posix_keeps_text() {
    let converted = Arguments::path_to_posix(&String::from("a/b/c.vy"))
        .expect("a plain relative path must convert");
    assert_eq!(converted, "a/b/c.vy");
}

#[test]
fn flags_select_the_contract_kind() {
    assert_eq!(base().contract_kind(), ContractKind::Vyper);
    let mut arguments = base();
    arguments.llvm_ir = true;
    assert_eq!(arguments.contract_kind(), ContractKind::LlvmIr);
    let mut arguments = base();
    arguments.zkasm = true;
    assert_eq!(arguments.contract_kind(), ContractKind::EraVMAssembly);
}

#[test]
fn optimization_parameter_maps_to_a_level() {
    let level_of = |parameter: Option<char>| {
        let mut arguments = base();
        arguments.optimization = parameter;
        arguments.optimizer_settings().level
    };
    assert_eq!(level_of(None), 3);
    assert_eq!(level_of(Some('0')), 0);
    assert_eq!(level_of(Some('1')), 1);
    assert_eq!(level_of(Some('2')), 2);
    assert_eq!(level_of(Some('3')), 3);
    assert_eq!(level_of(Some('s')), 4);
    assert_eq!(level_of(Some('z')), 5);
    assert_eq!(level_of(Some('q')), 3);

    let mut arguments = base();
    arguments.fallback_to_optimizing_for_size = true;
    arguments.jump_table_density_threshold = Some(12);
    let settings = arguments.optimizer_settings();
    assert!(settings.is_fallback_to_size_enabled);
    assert!(!settings.is_system_request_memoization_disabled);
    assert_eq!(settings.jump_table_density_threshold, Some(12));
}

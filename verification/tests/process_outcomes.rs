//! The process core: judging child outcomes, planning worker writes,
//! and the write-once executable override.

use zkvyper::process::{
    interpret_child_output, plan_worker_output, wants_test_encoding, worker_mode_flag,
    ExecutableOverride, ProcessError, WorkerAction,
};
use zkvyper::request::{
    Build, Contract, ContractKind, Input, OptimizerSettings, Output, WarningType,
};
use zkvyper::wire::{parse_response, parse_warning_name, serialize_request, serialize_response};

fn sample_output(tag: u8) -> Output {
    Output::new(Build {
        bytecode: vec![tag, 0x60, 0x80],
        metadata: format!("artifact {}", tag),
    })
}

fn sample_request(path: &str) -> Input {
    Input::new(
        String::from(path),
        Contract { kind: ContractKind::Vyper, source_code: String::from("def f(): pass") },
        None,
        false,
        None,
        OptimizerSettings {
            level: 2,
            is_fallback_to_size_enabled: false,
            is_system_request_memoization_disabled: false,
            jump_table_density_threshold: None,
        },
        Vec::new(),
        None,
    )
}

#[test]
fn call_succeeds_on_valid_output_and_clean_exit() {
    let expected = sample_output(1);
    let stdout_text = serialize_response(&expected);
    let result = interpret_child_output(
        &String::from("/usr/bin/zkvyper"),
        &stdout_text,
        &String::new(),
        true,
    );
    assert_eq!(result.expect("a clean child with valid output must succeed"), expected);
}

#[test]
fn nonzero_exit_fails_even_with_valid_output() {
    let stdout_text = serialize_response(&sample_output(2));
    let result = interpret_child_output(
        &String::from("/usr/bin/zkvyper"),
        &stdout_text,
        &String::from("panicked at codegen"),
        false,
    );
    let error = result.expect_err("a failing exit status must fail the call");
    match &error {
        ProcessError::ExitStatus { executable, stderr } => {
            assert_eq!(executable, "/usr/bin/zkvyper");
            assert_eq!(stderr, "panicked at codegen");
        },
        other => panic!("expected an exit-status error, got {:?}", other),
    }
    assert!(error.message().contains("panicked at codegen"));
    assert!(error.message().contains("/usr/bin/zkvyper"));
}

#[test]
fn unparseable_output_fails_even_with_clean_exit() {
    let result = interpret_child_output(
        &String::from("/usr/bin/zkvyper"),
        &String::from("thread dump, not a response"),
        &String::from("some diagnostic"),
        true,
    );
    let error = result.expect_err("unparseable output must fail the call");
    match &error {
        ProcessError::Protocol { executable, stderr } => {
            assert_eq!(executable, "/usr/bin/zkvyper");
            assert_eq!(stderr, "some diagnostic");
        },
        other => panic!("expected a protocol error, got {:?}", other),
    }
    let message = error.message();
    assert!(message.contains("parsing error"));
    assert!(message.contains("some diagnostic"));
}

#[test]
fn parse_failure_is_reported_first_when_both_fail() {
    let error = interpret_child_output(
        &String::from("zkvyper"),
        &String::from("garbage"),
        &String::from("the real cause"),
        false,
    )
    .expect_err("a doubly-failed child must fail the call");
    match &error {
        ProcessError::Protocol { stderr, .. } => assert_eq!(stderr, "the real cause"),
        other => panic!("expected the parse failure to surface, got {:?}", other),
    }
    assert!(error.message().contains("the real cause"));
}

#[test]
fn unparseable_output_reports_empty_diagnostics_too() {
    let error = interpret_child_output(
        &String::from("zkvyper"),
        &String::from(""),
        &String::from(""),
        true,
    )
    .expect_err("empty output must fail the call");
    assert!(error.message().contains("stderr: "));
}

#[test]
fn worker_success_writes_exactly_the_artifact() {
    let build = Build { bytecode: vec![1, 2, 3], metadata: String::from("meta") };
    let expected = Output::new(Build { bytecode: vec![1, 2, 3], metadata: String::from("meta") });
    match plan_worker_output(Ok(build)) {
        WorkerAction::Respond { payload } => {
            let parsed = parse_response(payload.as_str())
                .expect("the worker's output must be a valid response");
            assert_eq!(parsed, expected);
        },
        WorkerAction::Fail { message } => {
            panic!("a successful backend must not fail the worker: {}", message)
        },
    }
}

#[test]
fn worker_failure_writes_the_message_and_no_response() {
    match plan_worker_output(Err(String::from("type mismatch at line 3"))) {
        WorkerAction::Respond { payload } => {
            panic!("a failing backend must not produce a response: {}", payload)
        },
        WorkerAction::Fail { message } => {
            assert!(message.contains("type mismatch at line 3"));
        },
    }
}

#[test]
fn worker_reads_the_test_encoding_flag() {
    let mut request = sample_request("a.vy");
    assert!(!wants_test_encoding(&request));
    request.enable_test_encoding = true;
    assert!(wants_test_encoding(&request));
}

#[test]
fn worker_mode_flag_matches_the_cli() {
    assert_eq!(worker_mode_flag(), "--recursive-process");
}

#[test]
fn override_redirects_all_later_resolutions() {
    let mut cell = ExecutableOverride::new();
    assert!(cell.get().is_none());
    cell.set(String::from("/opt/other-zkvyper"))
        .expect("the first set must succeed");
    let resolved = cell
        .resolve(Ok(String::from("/proc/self/exe")))
        .expect("resolution with an override must succeed");
    assert_eq!(resolved, "/opt/other-zkvyper");
    // Even a failed lookup of the current executable does not matter.
    let resolved = cell
        .resolve(Err(String::from("lookup failed")))
        .expect("the override makes the lookup irrelevant");
    assert_eq!(resolved, "/opt/other-zkvyper");
}

#[test]
fn second_override_set_is_rejected() {
    let mut cell = ExecutableOverride::new();
    cell.set(String::from("/first")).expect("the first set must succeed");
    let rejected = cell.set(String::from("/second")).expect_err("a second set must be rejected");
    assert_eq!(rejected, "/second");
    assert_eq!(cell.get().expect("the override must keep its first value"), "/first");
}

#[test]
fn unset_override_uses_the_current_executable() {
    let cell = ExecutableOverride::new();
    let resolved = cell
        .resolve(Ok(String::from("/proc/self/exe")))
        .expect("resolution from the current executable must succeed");
    assert_eq!(resolved, "/proc/self/exe");
    let error = cell
        .resolve(Err(String::from("no current exe")))
        .expect_err("a failed lookup without an override is fatal");
    match &error {
        ProcessError::ExecutableResolution { detail } => assert_eq!(detail, "no current exe"),
        other => panic!("expected a resolution error, got {:?}", other),
    }
    assert!(error.message().contains("no current exe"));
}

#[test]
fn every_error_message_names_the_executable() {
    let exe = || String::from("/bin/zkvyper");
    let detail = || String::from("cause");
    assert_eq!(
        ProcessError::ExecutableResolution { detail: detail() }.message(),
        "executable resolution error: cause"
    );
    assert_eq!(
        ProcessError::Spawn { executable: exe(), detail: detail() }.message(),
        "/bin/zkvyper subprocess spawning error: cause"
    );
    assert_eq!(
        ProcessError::StdinAccess { executable: exe() }.message(),
        "/bin/zkvyper subprocess stdin getting error"
    );
    assert_eq!(
        ProcessError::StdinWrite { executable: exe(), detail: detail() }.message(),
        "/bin/zkvyper subprocess stdin writing error: cause"
    );
    assert_eq!(
        ProcessError::OutputRead { executable: exe(), detail: detail() }.message(),
        "/bin/zkvyper subprocess output reading error: cause"
    );
    assert_eq!(
        ProcessError::Protocol { executable: exe(), stderr: String::from("boom") }.message(),
        "/bin/zkvyper subprocess stdout parsing error (stderr: boom)"
    );
    assert_eq!(
        ProcessError::ExitStatus { executable: exe(), stderr: String::from("boom") }.message(),
        "/bin/zkvyper error: boom"
    );
}

#[test]
fn warning_names_parse_as_on_the_command_line() {
    assert_eq!(parse_warning_name("ecrecover"), Some(WarningType::EcRecover));
    assert_eq!(parse_warning_name("extcodesize"), Some(WarningType::ExtCodeSize));
    assert_eq!(parse_warning_name("txorigin"), Some(WarningType::TxOrigin));
    assert_eq!(parse_warning_name("spectre"), None);
    assert_eq!(parse_warning_name(""), None);
}

#[test]
fn interleaved_calls_stay_isolated() {
    // Two in-flight calls with distinguishable requests: each judged
    // from its own child's bytes, with no cross-talk.
    let request_a = sample_request("a.vy");
    let request_b = sample_request("b.vy");
    let wire_a = serialize_request(&request_a);
    let wire_b = serialize_request(&request_b);
    assert_ne!(wire_a, wire_b);

    let output_a = sample_output(0xA);
    let output_b = sample_output(0xB);
    let stdout_a = serialize_response(&output_a);
    let stdout_b = serialize_response(&output_b);
    let exe = String::from("zkvyper");
    let got_b = interpret_child_output(&exe, &stdout_b, &String::new(), true);
    let got_a = interpret_child_output(&exe, &stdout_a, &String::new(), true);
    assert_eq!(got_a.expect("call a must succeed"), output_a);
    assert_eq!(got_b.expect("call b must succeed"), output_b);
}

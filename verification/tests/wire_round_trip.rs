//! The wire format: serializing and reading back requests and
//! responses.

use zkvyper::request::{
    Build, Contract, ContractKind, DebugConfig, Input, OptimizerSettings, Output, WarningType,
};
use zkvyper::wire::{parse_request, parse_response, serialize_request, serialize_response};

fn full_request() -> Input {
    Input::new(
        String::from("/projects/token/ERC20.vy"),
        Contract {
            kind: ContractKind::Vyper,
            source_code: String::from("# pragma version ^0.3\n\n@external\ndef f() -> uint256:\n    return 1\n"),
        },
        Some((0u8..32u8).collect()),
        true,
        Some(String::from("cancun")),
        OptimizerSettings {
            level: 3,
            is_fallback_to_size_enabled: true,
            is_system_request_memoization_disabled: false,
            jump_table_density_threshold: Some(0xDEAD_BEEF),
        },
        vec![WarningType::EcRecover, WarningType::TxOrigin],
        Some(DebugConfig { output_directory: String::from("/tmp/dump=dir\\with\nodd chars") }),
    )
}

fn minimal_request() -> Input {
    Input::new(
        String::from(""),
        Contract { kind: ContractKind::LlvmIr, source_code: String::from("") },
        None,
        false,
        None,
        OptimizerSettings {
            level: 0,
            is_fallback_to_size_enabled: false,
            is_system_request_memoization_disabled: true,
            jump_table_density_threshold: None,
        },
        Vec::new(),
        None,
    )
}

#[test]
fn request_round_trip_full() {
    let request = full_request();
    let text = serialize_request(&request);
    let back = parse_request(text.as_str()).expect("a serialized request must parse");
    assert_eq!(back, request);
}

#[test]
fn request_round_trip_minimal() {
    let request = minimal_request();
    let text = serialize_request(&request);
    let back = parse_request(text.as_str()).expect("a serialized request must parse");
    assert_eq!(back, request);
}

#[test]
fn request_round_trip_each_kind() {
    for kind in [ContractKind::Vyper, ContractKind::LlvmIr, ContractKind::EraVMAssembly] {
        let mut request = minimal_request();
        request.contract.kind = kind;
        let text = serialize_request(&request);
        let back = parse_request(text.as_str()).expect("a serialized request must parse");
        assert_eq!(back, request);
    }
}

#[test]
fn request_round_trip_each_warning() {
    for warning in [WarningType::EcRecover, WarningType::ExtCodeSize, WarningType::TxOrigin] {
        let mut request = minimal_request();
        request.suppressed_warnings = vec![warning];
        let text = serialize_request(&request);
        let back = parse_request(text.as_str()).expect("a serialized request must parse");
        assert_eq!(back, request);
    }
}

#[test]
fn request_round_trip_keeps_escapes() {
    let mut request = minimal_request();
    request.full_path = String::from("a\\b\nc=d,e\u{1F600}");
    request.contract.source_code = String::from("\n\n\\n\\\\");
    let text = serialize_request(&request);
    let back = parse_request(text.as_str()).expect("a serialized request must parse");
    assert_eq!(back, request);
}

#[test]
fn request_serialization_is_field_named_text() {
    let text = serialize_request(&full_request());
    assert!(text.contains("full_path=/projects/token/ERC20.vy\n"));
    assert!(text.contains("contract_kind=vyper\n"));
    assert!(text.contains("enable_test_encoding=true\n"));
    assert!(text.contains("suppressed_warnings=ecrecover,txorigin\n"));
    assert!(text.contains("optimizer_jump_table_threshold=deadbeef\n"));
    assert!(text.contains(
        "source_code_hash=000102030405060708090a0b0c0d0e0f101112131415161718191a1b1c1d1e1f\n"
    ));
}

#[test]
fn absent_optional_fields_leave_no_line() {
    let text = serialize_request(&minimal_request());
    assert!(!text.contains("source_code_hash"));
    assert!(!text.contains("evm_version"));
    assert!(!text.contains("optimizer_jump_table_threshold"));
    assert!(!text.contains("debug_output_directory"));
}

#[test]
fn unknown_fields_are_skipped() {
    let request = full_request();
    let mut text = serialize_request(&request);
    text.push_str("a_field_of_a_future_version=whatever\n");
    let back = parse_request(text.as_str()).expect("unknown fields must not break a reader");
    assert_eq!(back, request);
}

#[test]
fn garbage_does_not_parse_as_request() {
    assert!(parse_request("not a message").is_none());
    assert!(parse_request("line without separator\n").is_none());
    assert!(parse_request("contract_kind=perl\n").is_none());
    assert!(parse_request("enable_test_encoding=maybe\n").is_none());
    assert!(parse_request("optimizer_level=0g\n").is_none());
    assert!(parse_request("optimizer_level=abc\n").is_none());
    assert!(parse_request("suppressed_warnings=ecrecover,,txorigin\n").is_none());
    assert!(parse_request("full_path=trailing\\escape\n").is_none());
}

#[test]
fn missing_required_field_does_not_parse() {
    let request = minimal_request();
    let text = serialize_request(&request);
    // Dropping any single line must leave the message incomplete.
    let lines: Vec<&str> = text.lines().collect();
    for skipped in 0..lines.len() {
        let mut partial = String::new();
        for (index, line) in lines.iter().enumerate() {
            if index != skipped {
                partial.push_str(line);
                partial.push('\n');
            }
        }
        let parsed = parse_request(partial.as_str());
        if lines[skipped].starts_with("suppressed_warnings=") {
            // The warning list is the one field with a default.
            assert_eq!(parsed.expect("an absent warning list stands for none"), request);
        } else {
            assert!(parsed.is_none(), "line {} should be required", lines[skipped]);
        }
    }
}

#[test]
fn wrong_hash_width_does_not_parse() {
    let mut request = minimal_request();
    request.source_code_hash = Some(vec![0xAB; 32]);
    let text = serialize_request(&request);
    let shortened = text.replace(
        "source_code_hash=abababababababababababababababababababababababababababababababab",
        "source_code_hash=abab",
    );
    assert!(parse_request(shortened.as_str()).is_none());
}

#[test]
fn response_round_trip() {
    let output = Output::new(Build {
        bytecode: vec![0x00, 0x01, 0xFE, 0xFF, 0x10],
        metadata: String::from("{\"compiler\":\"zkvyper\"}\nsecond line"),
    });
    let text = serialize_response(&output);
    let back = parse_response(text.as_str()).expect("a serialized response must parse");
    assert_eq!(back, output);
}

#[test]
fn response_round_trip_empty() {
    let output = Output::new(Build { bytecode: Vec::new(), metadata: String::new() });
    let text = serialize_response(&output);
    assert_eq!(text, "bytecode=\nmetadata=\n");
    let back = parse_response(text.as_str()).expect("a serialized response must parse");
    assert_eq!(back, output);
}

#[test]
fn garbage_does_not_parse_as_response() {
    assert!(parse_response("").is_none());
    assert!(parse_response("bytecode=00\n").is_none());
    assert!(parse_response("metadata=\n").is_none());
    assert!(parse_response("bytecode=0\nmetadata=\n").is_none());
    assert!(parse_response("bytecode=zz\nmetadata=\n").is_none());
}

#[test]
fn distinct_requests_serialize_distinctly() {
    let a = serialize_request(&full_request());
    let b = serialize_request(&minimal_request());
    assert_ne!(a, b);
}

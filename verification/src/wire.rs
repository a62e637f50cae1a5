//! The wire format of the process boundary: a textual, field-named,
//! forward-compatible encoding of requests and responses.
//!
//! A message is a sequence of lines `name=value`, one per field. String
//! values are escaped to stay on one line, byte strings travel as
//! lowercase hexadecimal, integers as fixed-width big-endian
//! hexadecimal, and flag lists as comma-separated tokens. An absent
//! optional field has no line; a reader skips lines whose name it does
//! not know, so new fields can be added without breaking old readers.

use vstd::prelude::*;

use crate::request::{
    Build, BuildV, Contract, ContractKind, ContractV, DebugConfig, DebugConfigV, Input, InputV,
    OptimizerSettings, Output, OutputV, WarningType, HASH_BYTE_LENGTH,
};
use crate::text::{
    be_bytes_of_u32, bytes_of_hex, bytes_to_hex_chars, chars_eq_str, chars_to_string, esc,
    escape_chars, find_char, find_char_from, hex_chars_to_bytes, hex_of_bytes,
    lemma_bytes_hex_round_trip, lemma_esc_no_newline, lemma_find_char_at, lemma_find_char_props,
    lemma_find_char_past_prefix, lemma_hex_plain, lemma_u32_bytes_round_trip, lemma_unesc_esc,
    push_chars, push_str_chars, str_chars, subvec, u32_from_be_bytes, u32_of_be_bytes,
    u32_to_be_bytes, unesc, unescape_chars,
};

verus! {

// ------------------------------------------------------------------
// Tokens.
// ------------------------------------------------------------------

/// The wire token of a contract kind.
pub open spec fn kind_token(k: ContractKind) -> Seq<char> {
    match k {
        ContractKind::Vyper => "vyper"@,
        ContractKind::LlvmIr => "llvm_ir"@,
        ContractKind::EraVMAssembly => "eravm_assembly"@,
    }
}

/// The inverse of `kind_token`.
pub open spec fn parse_kind(s: Seq<char>) -> Option<ContractKind> {
    if s == "vyper"@ {
        Some(ContractKind::Vyper)
    } else if s == "llvm_ir"@ {
        Some(ContractKind::LlvmIr)
    } else if s == "eravm_assembly"@ {
        Some(ContractKind::EraVMAssembly)
    } else {
        None
    }
}

/// The wire token of a suppressible warning.
pub open spec fn warning_token(w: WarningType) -> Seq<char> {
    match w {
        WarningType::EcRecover => "ecrecover"@,
        WarningType::ExtCodeSize => "extcodesize"@,
        WarningType::TxOrigin => "txorigin"@,
    }
}

/// The inverse of `warning_token`.
pub open spec fn parse_warning(s: Seq<char>) -> Option<WarningType> {
    if s == "ecrecover"@ {
        Some(WarningType::EcRecover)
    } else if s == "extcodesize"@ {
        Some(WarningType::ExtCodeSize)
    } else if s == "txorigin"@ {
        Some(WarningType::TxOrigin)
    } else {
        None
    }
}

/// The wire token of a boolean.
pub open spec fn bool_token(b: bool) -> Seq<char> {
    if b {
        "true"@
    } else {
        "false"@
    }
}

/// The inverse of `bool_token`.
pub open spec fn parse_bool(s: Seq<char>) -> Option<bool> {
    if s == "true"@ {
        Some(true)
    } else if s == "false"@ {
        Some(false)
    } else {
        None
    }
}

/// The comma-separated value of a warning list.
pub open spec fn warnings_value(ws: Seq<WarningType>) -> Seq<char>
    decreases ws.len(),
{
    if ws.len() == 0 {
        Seq::<char>::empty()
    } else if ws.len() == 1 {
        warning_token(ws[0])
    } else {
        warning_token(ws[0]) + seq![','] + warnings_value(ws.skip(1))
    }
}

/// The inverse of `warnings_value`.
pub open spec fn parse_warnings(s: Seq<char>) -> Option<Seq<WarningType>>
    decreases s.len(),
{
    if s.len() == 0 {
        Some(Seq::<WarningType>::empty())
    } else {
        let i = find_char(s, ',');
        if i < 0 {
            match parse_warning(s) {
                Some(w) => Some(seq![w]),
                None => None,
            }
        } else if i < s.len() {
            match parse_warning(s.take(i)) {
                Some(w) => match parse_warnings(s.skip(i + 1)) {
                    Some(rest) => Some(seq![w] + rest),
                    None => None,
                },
                None => None,
            }
        } else {
            None
        }
    }
}

// ------------------------------------------------------------------
// Lines.
// ------------------------------------------------------------------

/// One line of a message: `name=value` and a line break.
pub open spec fn line_of(n: Seq<char>, v: Seq<char>) -> Seq<char> {
    n + seq!['='] + v + seq!['\n']
}

/// A well-formed field name: non-empty, no line break, no `=`.
pub open spec fn name_wf(n: Seq<char>) -> bool {
    n.len() > 0 && forall|i: int| 0 <= i < n.len() ==> (n[i] != '\n' && n[i] != '=')
}

/// A well-formed field value: no line break.
pub open spec fn line_free(v: Seq<char>) -> bool {
    forall|i: int| 0 <= i < v.len() ==> v[i] != '\n'
}

/// Where one well-formed line ends and how it splits.
proof fn lemma_line_split(n: Seq<char>, v: Seq<char>, rest: Seq<char>)
    requires
        name_wf(n),
        line_free(v),
    ensures
        find_char(line_of(n, v) + rest, '\n') == n.len() + 1 + v.len() as int,
        (line_of(n, v) + rest).take((n.len() + 1 + v.len()) as int) == n + seq!['='] + v,
        (line_of(n, v) + rest).skip((n.len() + 1 + v.len() + 1) as int) == rest,
        find_char(n + seq!['='] + v, '=') == n.len() as int,
        (n + seq!['='] + v).take(n.len() as int) == n,
        (n + seq!['='] + v).skip(n.len() + 1 as int) == v,
{
    let line = n + seq!['='] + v;
    let s = line_of(n, v) + rest;
    assert(s =~= line + (seq!['\n'] + rest));
    assert forall|i: int| 0 <= i < line.len() implies line[i] != '\n' by {
        if i < n.len() {
            assert(line[i] == n[i]);
        } else if i == n.len() {
            assert(line[i] == '=');
        } else {
            assert(line[i] == v[i - n.len() - 1]);
        }
    }
    assert((seq!['\n'] + rest)[0] == '\n');
    assert(find_char(seq!['\n'] + rest, '\n') == 0);
    lemma_find_char_past_prefix(line, seq!['\n'] + rest, '\n');
    assert(find_char(s, '\n') == line.len());
    assert(s.take(line.len() as int) =~= line);
    assert(s.skip(line.len() + 1 as int) =~= rest);
    // The split of the line itself at the first `=`.
    assert(line =~= n + (seq!['='] + v));
    assert((seq!['='] + v)[0] == '=');
    assert(find_char(seq!['='] + v, '=') == 0);
    lemma_find_char_past_prefix(n, seq!['='] + v, '=');
    assert(line.take(n.len() as int) =~= n);
    assert(line.skip(n.len() + 1 as int) =~= v);
}

// ------------------------------------------------------------------
// The request message.
// ------------------------------------------------------------------

/// The request message from the debug-directory field on.
pub open spec fn ser_req_from_debug(i: InputV) -> Seq<char> {
    match i.debug_config {
        Some(d) => line_of("debug_output_directory"@, esc(d.output_directory)),
        None => Seq::<char>::empty(),
    }
}

/// The request message from the warning list on.
pub open spec fn ser_req_from_warnings(i: InputV) -> Seq<char> {
    line_of("suppressed_warnings"@, warnings_value(i.suppressed_warnings)) + ser_req_from_debug(i)
}

/// The request message from the jump-table threshold on.
pub open spec fn ser_req_from_jump_table(i: InputV) -> Seq<char> {
    (match i.optimizer_settings.jump_table_density_threshold {
        Some(t) => line_of("optimizer_jump_table_threshold"@, hex_of_bytes(be_bytes_of_u32(t))),
        None => Seq::<char>::empty(),
    }) + ser_req_from_warnings(i)
}

/// The request message from the memoization flag on.
pub open spec fn ser_req_from_memoization(i: InputV) -> Seq<char> {
    line_of(
        "optimizer_disable_memoization"@,
        bool_token(i.optimizer_settings.is_system_request_memoization_disabled),
    ) + ser_req_from_jump_table(i)
}

/// The request message from the size-fallback flag on.
pub open spec fn ser_req_from_fallback(i: InputV) -> Seq<char> {
    line_of(
        "optimizer_fallback_to_size"@,
        bool_token(i.optimizer_settings.is_fallback_to_size_enabled),
    ) + ser_req_from_memoization(i)
}

/// The request message from the optimizer level on.
pub open spec fn ser_req_from_level(i: InputV) -> Seq<char> {
    line_of("optimizer_level"@, hex_of_bytes(seq![i.optimizer_settings.level]))
        + ser_req_from_fallback(i)
}

/// The request message from the EVM version on.
pub open spec fn ser_req_from_evm(i: InputV) -> Seq<char> {
    (match i.evm_version {
        Some(ver) => line_of("evm_version"@, esc(ver)),
        None => Seq::<char>::empty(),
    }) + ser_req_from_level(i)
}

/// The request message from the test-encoding flag on.
pub open spec fn ser_req_from_test_encoding(i: InputV) -> Seq<char> {
    line_of("enable_test_encoding"@, bool_token(i.enable_test_encoding)) + ser_req_from_evm(i)
}

/// The request message from the source hash on.
pub open spec fn ser_req_from_hash(i: InputV) -> Seq<char> {
    (match i.source_code_hash {
        Some(h) => line_of("source_code_hash"@, hex_of_bytes(h)),
        None => Seq::<char>::empty(),
    }) + ser_req_from_test_encoding(i)
}

/// The request message from the contract source on.
pub open spec fn ser_req_from_source(i: InputV) -> Seq<char> {
    line_of("contract_source"@, esc(i.contract.source_code)) + ser_req_from_hash(i)
}

/// The request message from the contract kind on.
pub open spec fn ser_req_from_kind(i: InputV) -> Seq<char> {
    line_of("contract_kind"@, kind_token(i.contract.kind)) + ser_req_from_source(i)
}

/// The serialized form of a compilation request: one line per present
/// field.
pub open spec fn ser_request(i: InputV) -> Seq<char> {
    line_of("full_path"@, esc(i.full_path)) + ser_req_from_kind(i)
}

/// The fields of a request message gathered so far.
pub ghost struct ReqBuilderV {
    pub full_path: Option<Seq<char>>,
    pub contract_kind: Option<ContractKind>,
    pub contract_source: Option<Seq<char>>,
    pub source_code_hash: Option<Seq<u8>>,
    pub enable_test_encoding: Option<bool>,
    pub evm_version: Option<Seq<char>>,
    pub optimizer_level: Option<u8>,
    pub optimizer_fallback: Option<bool>,
    pub optimizer_no_memoization: Option<bool>,
    pub optimizer_jump_table: Option<u32>,
    pub suppressed_warnings: Option<Seq<WarningType>>,
    pub debug_output_directory: Option<Seq<char>>,
}

/// A builder with every field still missing.
pub open spec fn req_builder_empty() -> ReqBuilderV {
    ReqBuilderV {
        full_path: None,
        contract_kind: None,
        contract_source: None,
        source_code_hash: None,
        enable_test_encoding: None,
        evm_version: None,
        optimizer_level: None,
        optimizer_fallback: None,
        optimizer_no_memoization: None,
        optimizer_jump_table: None,
        suppressed_warnings: None,
        debug_output_directory: None,
    }
}

/// One field line applied to a request builder. An unknown name is
/// skipped for forward compatibility; a known name with a malformed
/// value fails the whole message.
pub open spec fn apply_req_field(b: ReqBuilderV, n: Seq<char>, v: Seq<char>) -> Option<
    ReqBuilderV,
> {
    if n == "full_path"@ {
        match unesc(v) {
            Some(s) => Some(ReqBuilderV { full_path: Some(s), ..b }),
            None => None,
        }
    } else if n == "contract_kind"@ {
        match parse_kind(v) {
            Some(k) => Some(ReqBuilderV { contract_kind: Some(k), ..b }),
            None => None,
        }
    } else if n == "contract_source"@ {
        match unesc(v) {
            Some(s) => Some(ReqBuilderV { contract_source: Some(s), ..b }),
            None => None,
        }
    } else if n == "source_code_hash"@ {
        match bytes_of_hex(v) {
            Some(bytes) => if bytes.len() == HASH_BYTE_LENGTH {
                Some(ReqBuilderV { source_code_hash: Some(bytes), ..b })
            } else {
                None
            },
            None => None,
        }
    } else if n == "enable_test_encoding"@ {
        match parse_bool(v) {
            Some(flag) => Some(ReqBuilderV { enable_test_encoding: Some(flag), ..b }),
            None => None,
        }
    } else if n == "evm_version"@ {
        match unesc(v) {
            Some(s) => Some(ReqBuilderV { evm_version: Some(s), ..b }),
            None => None,
        }
    } else if n == "optimizer_level"@ {
        match bytes_of_hex(v) {
            Some(bytes) => if bytes.len() == 1 {
                Some(ReqBuilderV { optimizer_level: Some(bytes[0]), ..b })
            } else {
                None
            },
            None => None,
        }
    } else if n == "optimizer_fallback_to_size"@ {
        match parse_bool(v) {
            Some(flag) => Some(ReqBuilderV { optimizer_fallback: Some(flag), ..b }),
            None => None,
        }
    } else if n == "optimizer_disable_memoization"@ {
        match parse_bool(v) {
            Some(flag) => Some(ReqBuilderV { optimizer_no_memoization: Some(flag), ..b }),
            None => None,
        }
    } else if n == "optimizer_jump_table_threshold"@ {
        match bytes_of_hex(v) {
            Some(bytes) => if bytes.len() == 4 {
                Some(ReqBuilderV {
                    optimizer_jump_table: Some(
                        u32_of_be_bytes(bytes[0], bytes[1], bytes[2], bytes[3]),
                    ),
                    ..b
                })
            } else {
                None
            },
            None => None,
        }
    } else if n == "suppressed_warnings"@ {
        match parse_warnings(v) {
            Some(ws) => Some(ReqBuilderV { suppressed_warnings: Some(ws), ..b }),
            None => None,
        }
    } else if n == "debug_output_directory"@ {
        match unesc(v) {
            Some(s) => Some(ReqBuilderV { debug_output_directory: Some(s), ..b }),
            None => None,
        }
    } else {
        Some(b)
    }
}

/// Folds the lines of a message into a request builder.
pub open spec fn parse_req_into(b: ReqBuilderV, s: Seq<char>) -> Option<ReqBuilderV>
    decreases s.len(),
{
    if s.len() == 0 {
        Some(b)
    } else {
        let i = find_char(s, '\n');
        if i < 0 || i >= s.len() {
            None
        } else {
            let line = s.take(i);
            let j = find_char(line, '=');
            if j < 0 || j >= line.len() {
                None
            } else {
                match apply_req_field(b, line.take(j), line.skip(j + 1)) {
                    Some(b2) => parse_req_into(b2, s.skip(i + 1)),
                    None => None,
                }
            }
        }
    }
}

/// A complete builder yields the request; a builder missing a required
/// field yields nothing. A missing warning list stands for no
/// suppression; the other optional fields map to their absence.
pub open spec fn finalize_req(b: ReqBuilderV) -> Option<InputV> {
    match (b.full_path, b.contract_kind, b.contract_source, b.enable_test_encoding,
    b.optimizer_level, b.optimizer_fallback, b.optimizer_no_memoization) {
        (Some(fp), Some(kind), Some(source), Some(te), Some(level), Some(fb), Some(nm)) => Some(
            InputV {
                full_path: fp,
                contract: ContractV { kind, source_code: source },
                source_code_hash: b.source_code_hash,
                enable_test_encoding: te,
                evm_version: b.evm_version,
                optimizer_settings: OptimizerSettings {
                    level,
                    is_fallback_to_size_enabled: fb,
                    is_system_request_memoization_disabled: nm,
                    jump_table_density_threshold: b.optimizer_jump_table,
                },
                suppressed_warnings: match b.suppressed_warnings {
                    Some(ws) => ws,
                    None => Seq::<WarningType>::empty(),
                },
                debug_config: match b.debug_output_directory {
                    Some(d) => Some(DebugConfigV { output_directory: d }),
                    None => None,
                },
            },
        ),
        _ => None,
    }
}

/// What a request message means.
pub open spec fn parse_request_spec(s: Seq<char>) -> Option<InputV> {
    match parse_req_into(req_builder_empty(), s) {
        Some(b) => finalize_req(b),
        None => None,
    }
}

// ------------------------------------------------------------------
// The response message.
// ------------------------------------------------------------------

/// The serialized form of a compilation response.
pub open spec fn ser_response(o: OutputV) -> Seq<char> {
    line_of("bytecode"@, hex_of_bytes(o.build.bytecode)) + line_of(
        "metadata"@,
        esc(o.build.metadata),
    )
}

/// The fields of a response message gathered so far.
pub ghost struct RespBuilderV {
    pub bytecode: Option<Seq<u8>>,
    pub metadata: Option<Seq<char>>,
}

/// A response builder with every field still missing.
pub open spec fn resp_builder_empty() -> RespBuilderV {
    RespBuilderV { bytecode: None, metadata: None }
}

/// One field line applied to a response builder.
pub open spec fn apply_resp_field(b: RespBuilderV, n: Seq<char>, v: Seq<char>) -> Option<
    RespBuilderV,
> {
    if n == "bytecode"@ {
        match bytes_of_hex(v) {
            Some(bytes) => Some(RespBuilderV { bytecode: Some(bytes), ..b }),
            None => None,
        }
    } else if n == "metadata"@ {
        match unesc(v) {
            Some(s) => Some(RespBuilderV { metadata: Some(s), ..b }),
            None => None,
        }
    } else {
        Some(b)
    }
}

/// Folds the lines of a message into a response builder.
pub open spec fn parse_resp_into(b: RespBuilderV, s: Seq<char>) -> Option<RespBuilderV>
    decreases s.len(),
{
    if s.len() == 0 {
        Some(b)
    } else {
        let i = find_char(s, '\n');
        if i < 0 || i >= s.len() {
            None
        } else {
            let line = s.take(i);
            let j = find_char(line, '=');
            if j < 0 || j >= line.len() {
                None
            } else {
                match apply_resp_field(b, line.take(j), line.skip(j + 1)) {
                    Some(b2) => parse_resp_into(b2, s.skip(i + 1)),
                    None => None,
                }
            }
        }
    }
}

/// A complete response builder yields the response.
pub open spec fn finalize_resp(b: RespBuilderV) -> Option<OutputV> {
    match (b.bytecode, b.metadata) {
        (Some(bytecode), Some(metadata)) => Some(
            OutputV { build: BuildV { bytecode, metadata } },
        ),
        _ => None,
    }
}

/// What a response message means.
pub open spec fn parse_response_spec(s: Seq<char>) -> Option<OutputV> {
    match parse_resp_into(resp_builder_empty(), s) {
        Some(b) => finalize_resp(b),
        None => None,
    }
}

// ------------------------------------------------------------------
// Framing steps.
// ------------------------------------------------------------------

/// Parsing a message that starts with a well-formed line consumes that
/// line first (request side).
proof fn lemma_parse_req_line(b: ReqBuilderV, n: Seq<char>, v: Seq<char>, rest: Seq<char>)
    requires
        name_wf(n),
        line_free(v),
    ensures
        parse_req_into(b, line_of(n, v) + rest) == (match apply_req_field(b, n, v) {
            Some(b2) => parse_req_into(b2, rest),
            None => None::<ReqBuilderV>,
        }),
{
    lemma_line_split(n, v, rest);
    let s = line_of(n, v) + rest;
    assert(s.len() > 0);
}

/// Parsing a message that starts with a well-formed line consumes that
/// line first (response side).
proof fn lemma_parse_resp_line(b: RespBuilderV, n: Seq<char>, v: Seq<char>, rest: Seq<char>)
    requires
        name_wf(n),
        line_free(v),
    ensures
        parse_resp_into(b, line_of(n, v) + rest) == (match apply_resp_field(b, n, v) {
            Some(b2) => parse_resp_into(b2, rest),
            None => None::<RespBuilderV>,
        }),
{
    lemma_line_split(n, v, rest);
    let s = line_of(n, v) + rest;
    assert(s.len() > 0);
}

// ------------------------------------------------------------------
// Executable tokens.
// ------------------------------------------------------------------

/// The wire token of a contract kind.
fn kind_token_str(k: ContractKind) -> (r: &'static str)
    ensures
        r@ == kind_token(k),
{
    match k {
        ContractKind::Vyper => "vyper",
        ContractKind::LlvmIr => "llvm_ir",
        ContractKind::EraVMAssembly => "eravm_assembly",
    }
}

/// The wire token of a suppressible warning.
fn warning_token_str(w: WarningType) -> (r: &'static str)
    ensures
        r@ == warning_token(w),
{
    match w {
        WarningType::EcRecover => "ecrecover",
        WarningType::ExtCodeSize => "extcodesize",
        WarningType::TxOrigin => "txorigin",
    }
}

/// The wire token of a boolean.
fn bool_token_str(b: bool) -> (r: &'static str)
    ensures
        r@ == bool_token(b),
{
    if b {
        "true"
    } else {
        "false"
    }
}

/// Reads a contract-kind token.
fn parse_kind_chars(v: &Vec<char>) -> (r: Option<ContractKind>)
    ensures
        r == parse_kind(v@),
{
    if chars_eq_str(v, "vyper") {
        Some(ContractKind::Vyper)
    } else if chars_eq_str(v, "llvm_ir") {
        Some(ContractKind::LlvmIr)
    } else if chars_eq_str(v, "eravm_assembly") {
        Some(ContractKind::EraVMAssembly)
    } else {
        None
    }
}

/// Reads a warning token.
fn parse_warning_chars(v: &Vec<char>) -> (r: Option<WarningType>)
    ensures
        r == parse_warning(v@),
{
    if chars_eq_str(v, "ecrecover") {
        Some(WarningType::EcRecover)
    } else if chars_eq_str(v, "extcodesize") {
        Some(WarningType::ExtCodeSize)
    } else if chars_eq_str(v, "txorigin") {
        Some(WarningType::TxOrigin)
    } else {
        None
    }
}

/// Reads a boolean token.
fn parse_bool_chars(v: &Vec<char>) -> (r: Option<bool>)
    ensures
        r == parse_bool(v@),
{
    if chars_eq_str(v, "true") {
        Some(true)
    } else if chars_eq_str(v, "false") {
        Some(false)
    } else {
        None
    }
}

// ------------------------------------------------------------------
// The warning list value.
// ------------------------------------------------------------------

/// A warning token is non-empty and free of separators.
proof fn lemma_warning_token_plain(w: WarningType)
    ensures
        warning_token(w).len() > 0,
        forall|i: int| 0 <= i < warning_token(w).len() ==> (warning_token(w)[i] != ','
            && warning_token(w)[i] != '\n'),
{
    reveal_strlit("ecrecover");
    reveal_strlit("extcodesize");
    reveal_strlit("txorigin");
}

/// A warning token reads back as itself.
proof fn lemma_parse_warning_token(w: WarningType)
    ensures
        parse_warning(warning_token(w)) == Some(w),
{
    reveal_strlit("ecrecover");
    reveal_strlit("extcodesize");
    reveal_strlit("txorigin");
    assert("extcodesize"@.len() == 11 && "ecrecover"@.len() == 9 && "txorigin"@.len() == 8);
    match w {
        WarningType::EcRecover => {
            assert(parse_warning("ecrecover"@) == Some(WarningType::EcRecover));
        },
        WarningType::ExtCodeSize => {
            assert("extcodesize"@ != "ecrecover"@);
            assert(parse_warning("extcodesize"@) == Some(WarningType::ExtCodeSize));
        },
        WarningType::TxOrigin => {
            assert("txorigin"@ != "ecrecover"@);
            assert("txorigin"@ != "extcodesize"@);
            assert(parse_warning("txorigin"@) == Some(WarningType::TxOrigin));
        },
    }
}

/// Appending one warning to the list value.
proof fn lemma_warnings_snoc(ws: Seq<WarningType>, w: WarningType)
    ensures
        warnings_value(ws.push(w)) == (if ws.len() == 0 {
            warning_token(w)
        } else {
            warnings_value(ws) + seq![','] + warning_token(w)
        }),
    decreases ws.len(),
{
    let p = ws.push(w);
    if ws.len() == 0 {
        assert(p.len() == 1);
        assert(p[0] == w);
    } else if ws.len() == 1 {
        assert(p.len() == 2);
        assert(p[0] == ws[0]);
        assert(p.skip(1) =~= seq![w]);
        assert(warnings_value(seq![w]) == warning_token(w));
    } else {
        assert(p.skip(1) =~= ws.skip(1).push(w));
        lemma_warnings_snoc(ws.skip(1), w);
        assert(p[0] == ws[0]);
        assert(warning_token(ws[0]) + seq![','] + (warnings_value(ws.skip(1)) + seq![',']
            + warning_token(w)) =~= (warning_token(ws[0]) + seq![','] + warnings_value(ws.skip(1)))
            + seq![','] + warning_token(w));
    }
}

/// The warning-list value reads back as the same list, and stays on
/// one line.
proof fn lemma_warnings_round_trip(ws: Seq<WarningType>)
    ensures
        parse_warnings(warnings_value(ws)) == Some(ws),
        line_free(warnings_value(ws)),
    decreases ws.len(),
{
    if ws.len() == 0 {
        assert(Seq::<WarningType>::empty() =~= ws);
    } else if ws.len() == 1 {
        lemma_warning_token_plain(ws[0]);
        lemma_parse_warning_token(ws[0]);
        let v = warning_token(ws[0]);
        lemma_find_char_props(v, ',');
        assert(find_char(v, ',') < 0);
        assert(seq![ws[0]] =~= ws);
    } else {
        lemma_warnings_round_trip(ws.skip(1));
        lemma_warning_token_plain(ws[0]);
        lemma_parse_warning_token(ws[0]);
        let tok = warning_token(ws[0]);
        let rest = warnings_value(ws.skip(1));
        let v = warnings_value(ws);
        assert(v == tok + seq![','] + rest);
        assert(v =~= tok + (seq![','] + rest));
        assert((seq![','] + rest)[0] == ',');
        assert(find_char(seq![','] + rest, ',') == 0);
        lemma_find_char_past_prefix(tok, seq![','] + rest, ',');
        assert(find_char(v, ',') == tok.len());
        assert(v.take(tok.len() as int) =~= tok);
        assert(v.skip(tok.len() + 1 as int) =~= rest);
        assert(parse_warnings(v) == Some(seq![ws[0]] + ws.skip(1)));
        assert(seq![ws[0]] + ws.skip(1) =~= ws);
        assert forall|i: int| 0 <= i < v.len() implies v[i] != '\n' by {
            if i < tok.len() {
                assert(v[i] == tok[i]);
            } else if i == tok.len() {
                assert(v[i] == ',');
            } else {
                assert(v[i] == rest[i - tok.len() - 1]);
            }
        }
    }
}

/// Writes a warning list as its comma-separated value.
fn warnings_to_chars(ws: &Vec<WarningType>) -> (r: Vec<char>)
    ensures
        r@ == warnings_value(ws@),
{
    let mut r: Vec<char> = Vec::new();
    let mut i: usize = 0;
    proof {
        assert(ws@.take(0) =~= Seq::<WarningType>::empty());
    }
    while i < ws.len()
        invariant
            i <= ws@.len(),
            r@ == warnings_value(ws@.take(i as int)),
        decreases ws.len() - i,
    {
        let ghost pre = r@;
        if i > 0 {
            r.push(',');
        }
        push_str_chars(&mut r, warning_token_str(ws[i]));
        proof {
            assert(ws@.take(i as int + 1) =~= ws@.take(i as int).push(ws@[i as int]));
            lemma_warnings_snoc(ws@.take(i as int), ws@[i as int]);
            if i == 0 {
                assert(warnings_value(Seq::<WarningType>::empty()) == Seq::<char>::empty());
                assert(Seq::<char>::empty() + warning_token(ws@[0]) =~= warning_token(ws@[0]));
            } else {
                assert(pre + seq![','] + warning_token(ws@[i as int]) =~= (pre.push(','))
                    + warning_token(ws@[i as int]));
            }
        }
        i += 1;
    }
    proof {
        assert(ws@.take(ws@.len() as int) =~= ws@);
    }
    r
}

/// Reads a comma-separated warning list.
fn parse_warnings_chars(v: &Vec<char>) -> (r: Option<Vec<WarningType>>)
    ensures
        match r {
            Some(ws) => parse_warnings(v@) == Some(ws@),
            None => parse_warnings(v@) is None,
        },
{
    let mut out: Vec<WarningType> = Vec::new();
    let mut pos: usize = 0;
    proof {
        assert(v@.skip(0) =~= v@);
        match parse_warnings(v@) {
            Some(rest) => {
                assert(out@ + rest =~= rest);
            },
            None => {},
        }
    }
    while pos < v.len()
        invariant
            pos <= v@.len(),
            parse_warnings(v@) == (match parse_warnings(v@.skip(pos as int)) {
                Some(rest) => Some(out@ + rest),
                None => None::<Seq<WarningType>>,
            }),
        decreases v.len() - pos,
    {
        let ghost suffix = v@.skip(pos as int);
        let ghost pre = out@;
        match find_char_from(v, ',', pos) {
            Some(k) => {
                proof {
                    assert forall|j: int| 0 <= j < k - pos implies suffix[j] != ',' by {
                        assert(suffix[j] == v@[pos + j]);
                    }
                    assert(suffix[k - pos] == v@[k as int]);
                    lemma_find_char_at(suffix, ',', k - pos);
                }
                let token = subvec(v, pos, k);
                proof {
                    assert(token@ =~= suffix.take(k - pos));
                }
                match parse_warning_chars(&token) {
                    Some(w) => {
                        out.push(w);
                        proof {
                            assert(suffix.skip(k - pos + 1) =~= v@.skip(k as int + 1));
                            match parse_warnings(v@.skip(k as int + 1)) {
                                Some(rest) => {
                                    assert(pre + (seq![w] + rest) =~= out@ + rest);
                                },
                                None => {},
                            }
                        }
                        pos = k + 1;
                    },
                    None => {
                        return None;
                    },
                }
            },
            None => {
                proof {
                    lemma_find_char_props(suffix, ',');
                    if find_char(suffix, ',') >= 0 {
                        assert(suffix[find_char(suffix, ',')] == ',');
                        assert(suffix[find_char(suffix, ',')] == v@[pos + find_char(suffix, ',')]);
                    }
                    assert(find_char(suffix, ',') < 0);
                }
                let token = subvec(v, pos, v.len());
                proof {
                    assert(token@ =~= suffix);
                }
                match parse_warning_chars(&token) {
                    Some(w) => {
                        out.push(w);
                        proof {
                            assert(parse_warnings(suffix) == Some(seq![w]));
                            assert(pre + seq![w] =~= out@);
                        }
                        pos = v.len();
                    },
                    None => {
                        return None;
                    },
                }
            },
        }
    }
    proof {
        assert(v@.skip(v@.len() as int) =~= Seq::<char>::empty());
        match parse_warnings(v@) {
            Some(rest) => {},
            None => {},
        }
        assert(out@ + Seq::<WarningType>::empty() =~= out@);
    }
    Some(out)
}

// ------------------------------------------------------------------
// Writing messages.
// ------------------------------------------------------------------

/// Appends one `name=value` line.
fn push_line(out: &mut Vec<char>, name: &str, value: &Vec<char>)
    ensures
        final(out)@ == old(out)@ + line_of(name@, value@),
{
    push_str_chars(out, name);
    out.push('=');
    push_chars(out, value);
    out.push('\n');
    proof {
        assert(out@ =~= old(out)@ + line_of(name@, value@));
    }
}

/// Writes a compilation response in the wire format.
pub fn serialize_response(output: &Output) -> (r: String)
    ensures
        r@ == ser_response(output@),
{
    let mut out: Vec<char> = Vec::new();
    let hex = bytes_to_hex_chars(&output.build.bytecode);
    push_line(&mut out, "bytecode", &hex);
    let metadata = escape_chars(&str_chars(output.build.metadata.as_str()));
    push_line(&mut out, "metadata", &metadata);
    proof {
        assert(out@ =~= ser_response(output@));
    }
    chars_to_string(&out)
}

// ------------------------------------------------------------------
// Reading responses.
// ------------------------------------------------------------------

/// The fields of a response message gathered so far.
struct RespBuilder {
    bytecode: Option<Vec<u8>>,
    metadata: Option<String>,
}

impl View for RespBuilder {
    type V = RespBuilderV;

    closed spec fn view(&self) -> RespBuilderV {
        RespBuilderV {
            bytecode: match self.bytecode {
                Some(b) => Some(b@),
                None => None,
            },
            metadata: match self.metadata {
                Some(m) => Some(m@),
                None => None,
            },
        }
    }
}

/// One field line applied to a response builder.
fn apply_resp_field_exec(b: &mut RespBuilder, name: &Vec<char>, value: &Vec<char>) -> (ok: bool)
    ensures
        match apply_resp_field(old(b)@, name@, value@) {
            Some(b2) => ok && final(b)@ == b2,
            None => !ok,
        },
{
    if chars_eq_str(name, "bytecode") {
        match hex_chars_to_bytes(value) {
            Some(bytes) => {
                b.bytecode = Some(bytes);
                true
            },
            None => false,
        }
    } else if chars_eq_str(name, "metadata") {
        match unescape_chars(value) {
            Some(chars) => {
                b.metadata = Some(chars_to_string(&chars));
                true
            },
            None => false,
        }
    } else {
        true
    }
}

/// A complete response builder yields the response.
fn finalize_resp_exec(b: RespBuilder) -> (r: Option<Output>)
    ensures
        match r {
            Some(o) => finalize_resp(b@) == Some(o@),
            None => finalize_resp(b@) is None,
        },
{
    match (b.bytecode, b.metadata) {
        (Some(bytecode), Some(metadata)) => Some(Output { build: Build { bytecode, metadata } }),
        _ => None,
    }
}

/// Reads a warning name as the user writes it.
pub fn parse_warning_name(text: &str) -> (r: Option<WarningType>)
    ensures
        r == parse_warning(text@),
{
    let chars = str_chars(text);
    parse_warning_chars(&chars)
}

/// Reads a compilation response from the wire format.
pub fn parse_response(text: &str) -> (r: Option<Output>)
    ensures
        match r {
            Some(o) => parse_response_spec(text@) == Some(o@),
            None => parse_response_spec(text@) is None,
        },
{
    let cv = str_chars(text);
    let mut b = RespBuilder { bytecode: None, metadata: None };
    let mut pos: usize = 0;
    proof {
        assert(cv@.skip(0) =~= cv@);
    }
    while pos < cv.len()
        invariant
            pos <= cv@.len(),
            cv@ == text@,
            parse_resp_into(resp_builder_empty(), text@) == parse_resp_into(
                b@,
                cv@.skip(pos as int),
            ),
        decreases cv.len() - pos,
    {
        let ghost suffix = cv@.skip(pos as int);
        let nl = match find_char_from(&cv, '\n', pos) {
            Some(k) => k,
            None => {
                proof {
                    lemma_find_char_props(suffix, '\n');
                    if find_char(suffix, '\n') >= 0 {
                        assert(suffix[find_char(suffix, '\n')] == cv@[pos + find_char(
                            suffix,
                            '\n',
                        )]);
                    }
                    assert(find_char(suffix, '\n') < 0);
                    assert(parse_resp_into(b@, suffix) is None);
                }
                return None;
            },
        };
        proof {
            assert forall|j: int| 0 <= j < nl - pos implies suffix[j] != '\n' by {
                assert(suffix[j] == cv@[pos + j]);
            }
            assert(suffix[nl - pos] == cv@[nl as int]);
            lemma_find_char_at(suffix, '\n', nl - pos);
        }
        let line = subvec(&cv, pos, nl);
        proof {
            assert(line@ =~= suffix.take(nl - pos));
        }
        let eq = match find_char_from(&line, '=', 0) {
            Some(j) => j,
            None => {
                proof {
                    lemma_find_char_props(line@, '=');
                    if find_char(line@, '=') >= 0 {
                        assert(line@[find_char(line@, '=')] == '=');
                    }
                    assert(find_char(line@, '=') < 0);
                    assert(parse_resp_into(b@, suffix) is None);
                }
                return None;
            },
        };
        proof {
            lemma_find_char_at(line@, '=', eq as int);
        }
        let name = subvec(&line, 0, eq);
        let value = subvec(&line, eq + 1, line.len());
        proof {
            assert(name@ =~= line@.take(eq as int));
            assert(value@ =~= line@.skip(eq as int + 1));
        }
        let ok = apply_resp_field_exec(&mut b, &name, &value);
        if !ok {
            proof {
                assert(parse_resp_into(resp_builder_empty(), text@) is None);
            }
            return None;
        }
        proof {
            assert(suffix.skip(nl - pos + 1) =~= cv@.skip(nl as int + 1));
        }
        pos = nl + 1;
    }
    proof {
        assert(cv@.skip(cv@.len() as int) =~= Seq::<char>::empty());
    }
    finalize_resp_exec(b)
}

/// Serializing a response and reading it back yields the same
/// response: the wire format loses nothing.
pub proof fn lemma_response_round_trip(o: OutputV)
    ensures
        parse_response_spec(ser_response(o)) == Some(o),
{
    reveal_strlit("bytecode");
    reveal_strlit("metadata");
    lemma_hex_plain(o.build.bytecode);
    lemma_esc_no_newline(o.build.metadata);
    lemma_bytes_hex_round_trip(o.build.bytecode);
    lemma_unesc_esc(o.build.metadata);
    let n1 = "bytecode"@;
    let v1 = hex_of_bytes(o.build.bytecode);
    let n2 = "metadata"@;
    let v2 = esc(o.build.metadata);
    let s = ser_response(o);
    assert(name_wf(n1));
    assert(name_wf(n2));
    let rest1 = line_of(n2, v2);
    assert(s =~= line_of(n1, v1) + rest1);
    let b0 = resp_builder_empty();
    lemma_parse_resp_line(b0, n1, v1, rest1);
    let b1 = RespBuilderV { bytecode: Some(o.build.bytecode), metadata: None };
    assert(apply_resp_field(b0, n1, v1) == Some(b1));
    assert(rest1 =~= line_of(n2, v2) + Seq::<char>::empty());
    lemma_parse_resp_line(b1, n2, v2, Seq::<char>::empty());
    let b2 = RespBuilderV { bytecode: Some(o.build.bytecode), metadata: Some(o.build.metadata) };
    assert(apply_resp_field(b1, n2, v2) == Some(b2));
    assert(parse_resp_into(b2, Seq::<char>::empty()) == Some(b2));
    assert(finalize_resp(b2) == Some(OutputV { build: BuildV { bytecode: o.build.bytecode, metadata: o.build.metadata } }));
    assert(parse_resp_into(b0, s) == Some(b2));
}

/// Distinct responses have distinct serialized forms.
pub proof fn lemma_serialize_response_injective(a: OutputV, b: OutputV)
    requires
        ser_response(a) == ser_response(b),
    ensures
        a == b,
{
    lemma_response_round_trip(a);
    lemma_response_round_trip(b);
}

// ------------------------------------------------------------------
// Writing requests.
// ------------------------------------------------------------------

/// Writes a compilation request in the wire format.
pub fn serialize_request(input: &Input) -> (r: String)
    ensures
        r@ == ser_request(input@),
{
    let mut out: Vec<char> = Vec::new();
    let ghost a0 = out@;
    let path = escape_chars(&str_chars(input.full_path.as_str()));
    push_line(&mut out, "full_path", &path);
    let ghost a1 = out@;
    let kind = str_chars(kind_token_str(input.contract.kind));
    push_line(&mut out, "contract_kind", &kind);
    let ghost a2 = out@;
    let source = escape_chars(&str_chars(input.contract.source_code.as_str()));
    push_line(&mut out, "contract_source", &source);
    let ghost a3 = out@;
    match &input.source_code_hash {
        Some(hash) => {
            let hex = bytes_to_hex_chars(hash);
            push_line(&mut out, "source_code_hash", &hex);
        },
        None => {},
    }
    let ghost a4 = out@;
    let test_encoding = str_chars(bool_token_str(input.enable_test_encoding));
    push_line(&mut out, "enable_test_encoding", &test_encoding);
    let ghost a5 = out@;
    match &input.evm_version {
        Some(version) => {
            let escaped = escape_chars(&str_chars(version.as_str()));
            push_line(&mut out, "evm_version", &escaped);
        },
        None => {},
    }
    let ghost a6 = out@;
    let mut level_byte: Vec<u8> = Vec::new();
    level_byte.push(input.optimizer_settings.level);
    proof {
        assert(level_byte@ =~= seq![input.optimizer_settings.level]);
    }
    let level = bytes_to_hex_chars(&level_byte);
    push_line(&mut out, "optimizer_level", &level);
    let ghost a7 = out@;
    let fallback = str_chars(bool_token_str(input.optimizer_settings.is_fallback_to_size_enabled));
    push_line(&mut out, "optimizer_fallback_to_size", &fallback);
    let ghost a8 = out@;
    let no_memoization = str_chars(
        bool_token_str(input.optimizer_settings.is_system_request_memoization_disabled),
    );
    push_line(&mut out, "optimizer_disable_memoization", &no_memoization);
    let ghost a9 = out@;
    match input.optimizer_settings.jump_table_density_threshold {
        Some(threshold) => {
            let bytes = u32_to_be_bytes(threshold);
            let hex = bytes_to_hex_chars(&bytes);
            push_line(&mut out, "optimizer_jump_table_threshold", &hex);
        },
        None => {},
    }
    let ghost a10 = out@;
    let warnings = warnings_to_chars(&input.suppressed_warnings);
    push_line(&mut out, "suppressed_warnings", &warnings);
    let ghost a11 = out@;
    match &input.debug_config {
        Some(config) => {
            let directory = escape_chars(&str_chars(config.output_directory.as_str()));
            push_line(&mut out, "debug_output_directory", &directory);
        },
        None => {},
    }
    proof {
        // Re-associate the appended lines, last field first.
        let iv = input@;
        if iv.debug_config is None {
            assert(a11 + ser_req_from_debug(iv) =~= out@);
        }
        assert(out@ == a11 + ser_req_from_debug(iv));
        vstd::seq_lib::lemma_concat_associative(
            a10,
            line_of("suppressed_warnings"@, warnings_value(iv.suppressed_warnings)),
            ser_req_from_debug(iv),
        );
        assert(out@ == a10 + ser_req_from_warnings(iv));
        if iv.optimizer_settings.jump_table_density_threshold is None {
            assert(a9 + ser_req_from_jump_table(iv) =~= a9 + ser_req_from_warnings(iv));
        } else {
            vstd::seq_lib::lemma_concat_associative(
                a9,
                line_of(
                    "optimizer_jump_table_threshold"@,
                    hex_of_bytes(
                        be_bytes_of_u32(
                            iv.optimizer_settings.jump_table_density_threshold.unwrap(),
                        ),
                    ),
                ),
                ser_req_from_warnings(iv),
            );
        }
        assert(out@ == a9 + ser_req_from_jump_table(iv));
        vstd::seq_lib::lemma_concat_associative(
            a8,
            line_of(
                "optimizer_disable_memoization"@,
                bool_token(iv.optimizer_settings.is_system_request_memoization_disabled),
            ),
            ser_req_from_jump_table(iv),
        );
        assert(out@ == a8 + ser_req_from_memoization(iv));
        vstd::seq_lib::lemma_concat_associative(
            a7,
            line_of(
                "optimizer_fallback_to_size"@,
                bool_token(iv.optimizer_settings.is_fallback_to_size_enabled),
            ),
            ser_req_from_memoization(iv),
        );
        assert(out@ == a7 + ser_req_from_fallback(iv));
        vstd::seq_lib::lemma_concat_associative(
            a6,
            line_of("optimizer_level"@, hex_of_bytes(seq![iv.optimizer_settings.level])),
            ser_req_from_fallback(iv),
        );
        assert(out@ == a6 + ser_req_from_level(iv));
        if iv.evm_version is None {
            assert(a5 + ser_req_from_evm(iv) =~= a5 + ser_req_from_level(iv));
        } else {
            vstd::seq_lib::lemma_concat_associative(
                a5,
                line_of("evm_version"@, esc(iv.evm_version.unwrap())),
                ser_req_from_level(iv),
            );
        }
        assert(out@ == a5 + ser_req_from_evm(iv));
        vstd::seq_lib::lemma_concat_associative(
            a4,
            line_of("enable_test_encoding"@, bool_token(iv.enable_test_encoding)),
            ser_req_from_evm(iv),
        );
        assert(out@ == a4 + ser_req_from_test_encoding(iv));
        if iv.source_code_hash is None {
            assert(a3 + ser_req_from_hash(iv) =~= a3 + ser_req_from_test_encoding(iv));
        } else {
            vstd::seq_lib::lemma_concat_associative(
                a3,
                line_of("source_code_hash"@, hex_of_bytes(iv.source_code_hash.unwrap())),
                ser_req_from_test_encoding(iv),
            );
        }
        assert(out@ == a3 + ser_req_from_hash(iv));
        vstd::seq_lib::lemma_concat_associative(
            a2,
            line_of("contract_source"@, esc(iv.contract.source_code)),
            ser_req_from_hash(iv),
        );
        assert(out@ == a2 + ser_req_from_source(iv));
        vstd::seq_lib::lemma_concat_associative(
            a1,
            line_of("contract_kind"@, kind_token(iv.contract.kind)),
            ser_req_from_source(iv),
        );
        assert(out@ == a1 + ser_req_from_kind(iv));
        vstd::seq_lib::lemma_concat_associative(
            a0,
            line_of("full_path"@, esc(iv.full_path)),
            ser_req_from_kind(iv),
        );
        assert(a0 + line_of("full_path"@, esc(iv.full_path)) =~= line_of(
            "full_path"@,
            esc(iv.full_path),
        ));
        assert(out@ == ser_request(iv));
    }
    chars_to_string(&out)
}

// ------------------------------------------------------------------
// Reading requests.
// ------------------------------------------------------------------

/// The fields of a request message gathered so far.
struct ReqBuilder {
    full_path: Option<String>,
    contract_kind: Option<ContractKind>,
    contract_source: Option<String>,
    source_code_hash: Option<Vec<u8>>,
    enable_test_encoding: Option<bool>,
    evm_version: Option<String>,
    optimizer_level: Option<u8>,
    optimizer_fallback: Option<bool>,
    optimizer_no_memoization: Option<bool>,
    optimizer_jump_table: Option<u32>,
    suppressed_warnings: Option<Vec<WarningType>>,
    debug_output_directory: Option<String>,
}

impl View for ReqBuilder {
    type V = ReqBuilderV;

    closed spec fn view(&self) -> ReqBuilderV {
        ReqBuilderV {
            full_path: match self.full_path {
                Some(s) => Some(s@),
                None => None,
            },
            contract_kind: self.contract_kind,
            contract_source: match self.contract_source {
                Some(s) => Some(s@),
                None => None,
            },
            source_code_hash: match self.source_code_hash {
                Some(h) => Some(h@),
                None => None,
            },
            enable_test_encoding: self.enable_test_encoding,
            evm_version: match self.evm_version {
                Some(s) => Some(s@),
                None => None,
            },
            optimizer_level: self.optimizer_level,
            optimizer_fallback: self.optimizer_fallback,
            optimizer_no_memoization: self.optimizer_no_memoization,
            optimizer_jump_table: self.optimizer_jump_table,
            suppressed_warnings: match self.suppressed_warnings {
                Some(ws) => Some(ws@),
                None => None,
            },
            debug_output_directory: match self.debug_output_directory {
                Some(s) => Some(s@),
                None => None,
            },
        }
    }
}

/// One field line applied to a request builder.
fn apply_req_field_exec(b: &mut ReqBuilder, name: &Vec<char>, value: &Vec<char>) -> (ok: bool)
    ensures
        match apply_req_field(old(b)@, name@, value@) {
            Some(b2) => ok && final(b)@ == b2,
            None => !ok,
        },
{
    if chars_eq_str(name, "full_path") {
        match unescape_chars(value) {
            Some(chars) => {
                b.full_path = Some(chars_to_string(&chars));
                true
            },
            None => false,
        }
    } else if chars_eq_str(name, "contract_kind") {
        match parse_kind_chars(value) {
            Some(kind) => {
                b.contract_kind = Some(kind);
                true
            },
            None => false,
        }
    } else if chars_eq_str(name, "contract_source") {
        match unescape_chars(value) {
            Some(chars) => {
                b.contract_source = Some(chars_to_string(&chars));
                true
            },
            None => false,
        }
    } else if chars_eq_str(name, "source_code_hash") {
        match hex_chars_to_bytes(value) {
            Some(bytes) => if bytes.len() == HASH_BYTE_LENGTH {
                b.source_code_hash = Some(bytes);
                true
            } else {
                false
            },
            None => false,
        }
    } else if chars_eq_str(name, "enable_test_encoding") {
        match parse_bool_chars(value) {
            Some(flag) => {
                b.enable_test_encoding = Some(flag);
                true
            },
            None => false,
        }
    } else if chars_eq_str(name, "evm_version") {
        match unescape_chars(value) {
            Some(chars) => {
                b.evm_version = Some(chars_to_string(&chars));
                true
            },
            None => false,
        }
    } else if chars_eq_str(name, "optimizer_level") {
        match hex_chars_to_bytes(value) {
            Some(bytes) => if bytes.len() == 1 {
                b.optimizer_level = Some(bytes[0]);
                true
            } else {
                false
            },
            None => false,
        }
    } else if chars_eq_str(name, "optimizer_fallback_to_size") {
        match parse_bool_chars(value) {
            Some(flag) => {
                b.optimizer_fallback = Some(flag);
                true
            },
            None => false,
        }
    } else if chars_eq_str(name, "optimizer_disable_memoization") {
        match parse_bool_chars(value) {
            Some(flag) => {
                b.optimizer_no_memoization = Some(flag);
                true
            },
            None => false,
        }
    } else if chars_eq_str(name, "optimizer_jump_table_threshold") {
        match hex_chars_to_bytes(value) {
            Some(bytes) => if bytes.len() == 4 {
                b.optimizer_jump_table = Some(
                    u32_from_be_bytes(bytes[0], bytes[1], bytes[2], bytes[3]),
                );
                true
            } else {
                false
            },
            None => false,
        }
    } else if chars_eq_str(name, "suppressed_warnings") {
        match parse_warnings_chars(value) {
            Some(warnings) => {
                b.suppressed_warnings = Some(warnings);
                true
            },
            None => false,
        }
    } else if chars_eq_str(name, "debug_output_directory") {
        match unescape_chars(value) {
            Some(chars) => {
                b.debug_output_directory = Some(chars_to_string(&chars));
                true
            },
            None => false,
        }
    } else {
        true
    }
}

/// A complete request builder yields the request.
fn finalize_req_exec(b: ReqBuilder) -> (r: Option<Input>)
    ensures
        match r {
            Some(i) => finalize_req(b@) == Some(i@),
            None => finalize_req(b@) is None,
        },
{
    match (b.full_path, b.contract_kind, b.contract_source, b.enable_test_encoding,
    b.optimizer_level, b.optimizer_fallback, b.optimizer_no_memoization) {
        (
            Some(full_path),
            Some(kind),
            Some(source_code),
            Some(enable_test_encoding),
            Some(level),
            Some(fallback),
            Some(no_memoization),
        ) => Some(
            Input {
                full_path,
                contract: Contract { kind, source_code },
                source_code_hash: b.source_code_hash,
                enable_test_encoding,
                evm_version: b.evm_version,
                optimizer_settings: OptimizerSettings {
                    level,
                    is_fallback_to_size_enabled: fallback,
                    is_system_request_memoization_disabled: no_memoization,
                    jump_table_density_threshold: b.optimizer_jump_table,
                },
                suppressed_warnings: match b.suppressed_warnings {
                    Some(warnings) => warnings,
                    None => Vec::new(),
                },
                debug_config: match b.debug_output_directory {
                    Some(output_directory) => Some(DebugConfig { output_directory }),
                    None => None,
                },
            },
        ),
        _ => None,
    }
}

/// Reads a compilation request from the wire format.
pub fn parse_request(text: &str) -> (r: Option<Input>)
    ensures
        match r {
            Some(i) => parse_request_spec(text@) == Some(i@),
            None => parse_request_spec(text@) is None,
        },
{
    let cv = str_chars(text);
    let mut b = ReqBuilder {
        full_path: None,
        contract_kind: None,
        contract_source: None,
        source_code_hash: None,
        enable_test_encoding: None,
        evm_version: None,
        optimizer_level: None,
        optimizer_fallback: None,
        optimizer_no_memoization: None,
        optimizer_jump_table: None,
        suppressed_warnings: None,
        debug_output_directory: None,
    };
    let mut pos: usize = 0;
    proof {
        assert(cv@.skip(0) =~= cv@);
    }
    while pos < cv.len()
        invariant
            pos <= cv@.len(),
            cv@ == text@,
            parse_req_into(req_builder_empty(), text@) == parse_req_into(
                b@,
                cv@.skip(pos as int),
            ),
        decreases cv.len() - pos,
    {
        let ghost suffix = cv@.skip(pos as int);
        let nl = match find_char_from(&cv, '\n', pos) {
            Some(k) => k,
            None => {
                proof {
                    lemma_find_char_props(suffix, '\n');
                    if find_char(suffix, '\n') >= 0 {
                        assert(suffix[find_char(suffix, '\n')] == cv@[pos + find_char(
                            suffix,
                            '\n',
                        )]);
                    }
                    assert(find_char(suffix, '\n') < 0);
                    assert(parse_req_into(b@, suffix) is None);
                }
                return None;
            },
        };
        proof {
            assert forall|j: int| 0 <= j < nl - pos implies suffix[j] != '\n' by {
                assert(suffix[j] == cv@[pos + j]);
            }
            assert(suffix[nl - pos] == cv@[nl as int]);
            lemma_find_char_at(suffix, '\n', nl - pos);
        }
        let line = subvec(&cv, pos, nl);
        proof {
            assert(line@ =~= suffix.take(nl - pos));
        }
        let eq = match find_char_from(&line, '=', 0) {
            Some(j) => j,
            None => {
                proof {
                    lemma_find_char_props(line@, '=');
                    if find_char(line@, '=') >= 0 {
                        assert(line@[find_char(line@, '=')] == '=');
                    }
                    assert(find_char(line@, '=') < 0);
                    assert(parse_req_into(b@, suffix) is None);
                }
                return None;
            },
        };
        proof {
            lemma_find_char_at(line@, '=', eq as int);
        }
        let name = subvec(&line, 0, eq);
        let value = subvec(&line, eq + 1, line.len());
        proof {
            assert(name@ =~= line@.take(eq as int));
            assert(value@ =~= line@.skip(eq as int + 1));
        }
        let ok = apply_req_field_exec(&mut b, &name, &value);
        if !ok {
            proof {
                assert(parse_req_into(req_builder_empty(), text@) is None);
            }
            return None;
        }
        proof {
            assert(suffix.skip(nl - pos + 1) =~= cv@.skip(nl as int + 1));
        }
        pos = nl + 1;
    }
    proof {
        assert(cv@.skip(cv@.len() as int) =~= Seq::<char>::empty());
    }
    finalize_req_exec(b)
}

// ------------------------------------------------------------------
// The request round trip.
// ------------------------------------------------------------------

/// A contract-kind token is a well-formed line value and reads back as
/// its kind.
proof fn lemma_kind_token(k: ContractKind)
    ensures
        parse_kind(kind_token(k)) == Some(k),
        line_free(kind_token(k)),
{
    reveal_strlit("vyper");
    reveal_strlit("llvm_ir");
    reveal_strlit("eravm_assembly");
    assert("vyper"@.len() == 5 && "llvm_ir"@.len() == 7 && "eravm_assembly"@.len() == 14);
    match k {
        ContractKind::Vyper => {
            assert(parse_kind("vyper"@) == Some(ContractKind::Vyper));
        },
        ContractKind::LlvmIr => {
            assert("llvm_ir"@ != "vyper"@);
            assert(parse_kind("llvm_ir"@) == Some(ContractKind::LlvmIr));
        },
        ContractKind::EraVMAssembly => {
            assert("eravm_assembly"@ != "vyper"@);
            assert("eravm_assembly"@ != "llvm_ir"@);
            assert(parse_kind("eravm_assembly"@) == Some(ContractKind::EraVMAssembly));
        },
    }
}

/// A boolean token is a well-formed line value and reads back as its
/// value.
proof fn lemma_bool_token(b: bool)
    ensures
        parse_bool(bool_token(b)) == Some(b),
        line_free(bool_token(b)),
{
    reveal_strlit("true");
    reveal_strlit("false");
    assert("true"@.len() == 4 && "false"@.len() == 5);
    if b {
        assert(parse_bool("true"@) == Some(true));
    } else {
        assert("false"@ != "true"@);
        assert(parse_bool("false"@) == Some(false));
    }
}

/// Every request field name is a well-formed name.
proof fn lemma_req_names_wf()
    ensures
        name_wf("full_path"@),
        name_wf("contract_kind"@),
        name_wf("contract_source"@),
        name_wf("source_code_hash"@),
        name_wf("enable_test_encoding"@),
        name_wf("evm_version"@),
        name_wf("optimizer_level"@),
        name_wf("optimizer_fallback_to_size"@),
        name_wf("optimizer_disable_memoization"@),
        name_wf("optimizer_jump_table_threshold"@),
        name_wf("suppressed_warnings"@),
        name_wf("debug_output_directory"@),
{
    reveal_strlit("full_path");
    reveal_strlit("contract_kind");
    reveal_strlit("contract_source");
    reveal_strlit("source_code_hash");
    reveal_strlit("enable_test_encoding");
    reveal_strlit("evm_version");
    reveal_strlit("optimizer_level");
    reveal_strlit("optimizer_fallback_to_size");
    reveal_strlit("optimizer_disable_memoization");
    reveal_strlit("optimizer_jump_table_threshold");
    reveal_strlit("suppressed_warnings");
    reveal_strlit("debug_output_directory");
}

/// The request field names are pairwise distinct.
proof fn lemma_req_names_distinct()
    ensures
        "contract_kind"@ != "full_path"@,
        "contract_source"@ != "full_path"@ && "contract_source"@ != "contract_kind"@,
        "source_code_hash"@ != "full_path"@ && "source_code_hash"@ != "contract_kind"@
            && "source_code_hash"@ != "contract_source"@,
        "enable_test_encoding"@ != "full_path"@ && "enable_test_encoding"@ != "contract_kind"@
            && "enable_test_encoding"@ != "contract_source"@ && "enable_test_encoding"@
            != "source_code_hash"@,
        "evm_version"@ != "full_path"@ && "evm_version"@ != "contract_kind"@ && "evm_version"@
            != "contract_source"@ && "evm_version"@ != "source_code_hash"@ && "evm_version"@
            != "enable_test_encoding"@,
        "optimizer_level"@ != "full_path"@ && "optimizer_level"@ != "contract_kind"@
            && "optimizer_level"@ != "contract_source"@ && "optimizer_level"@
            != "source_code_hash"@ && "optimizer_level"@ != "enable_test_encoding"@
            && "optimizer_level"@ != "evm_version"@,
        "optimizer_fallback_to_size"@ != "full_path"@ && "optimizer_fallback_to_size"@
            != "contract_kind"@ && "optimizer_fallback_to_size"@ != "contract_source"@
            && "optimizer_fallback_to_size"@ != "source_code_hash"@
            && "optimizer_fallback_to_size"@ != "enable_test_encoding"@
            && "optimizer_fallback_to_size"@ != "evm_version"@ && "optimizer_fallback_to_size"@
            != "optimizer_level"@,
        "optimizer_disable_memoization"@ != "full_path"@ && "optimizer_disable_memoization"@
            != "contract_kind"@ && "optimizer_disable_memoization"@ != "contract_source"@
            && "optimizer_disable_memoization"@ != "source_code_hash"@
            && "optimizer_disable_memoization"@ != "enable_test_encoding"@
            && "optimizer_disable_memoization"@ != "evm_version"@
            && "optimizer_disable_memoization"@ != "optimizer_level"@
            && "optimizer_disable_memoization"@ != "optimizer_fallback_to_size"@,
        "optimizer_jump_table_threshold"@ != "full_path"@ && "optimizer_jump_table_threshold"@
            != "contract_kind"@ && "optimizer_jump_table_threshold"@ != "contract_source"@
            && "optimizer_jump_table_threshold"@ != "source_code_hash"@
            && "optimizer_jump_table_threshold"@ != "enable_test_encoding"@
            && "optimizer_jump_table_threshold"@ != "evm_version"@
            && "optimizer_jump_table_threshold"@ != "optimizer_level"@
            && "optimizer_jump_table_threshold"@ != "optimizer_fallback_to_size"@
            && "optimizer_jump_table_threshold"@ != "optimizer_disable_memoization"@,
        "suppressed_warnings"@ != "full_path"@ && "suppressed_warnings"@ != "contract_kind"@
            && "suppressed_warnings"@ != "contract_source"@ && "suppressed_warnings"@
            != "source_code_hash"@ && "suppressed_warnings"@ != "enable_test_encoding"@
            && "suppressed_warnings"@ != "evm_version"@ && "suppressed_warnings"@
            != "optimizer_level"@ && "suppressed_warnings"@ != "optimizer_fallback_to_size"@
            && "suppressed_warnings"@ != "optimizer_disable_memoization"@
            && "suppressed_warnings"@ != "optimizer_jump_table_threshold"@,
        "debug_output_directory"@ != "full_path"@ && "debug_output_directory"@
            != "contract_kind"@ && "debug_output_directory"@ != "contract_source"@
            && "debug_output_directory"@ != "source_code_hash"@ && "debug_output_directory"@
            != "enable_test_encoding"@ && "debug_output_directory"@ != "evm_version"@
            && "debug_output_directory"@ != "optimizer_level"@ && "debug_output_directory"@
            != "optimizer_fallback_to_size"@ && "debug_output_directory"@
            != "optimizer_disable_memoization"@ && "debug_output_directory"@
            != "optimizer_jump_table_threshold"@ && "debug_output_directory"@
            != "suppressed_warnings"@,
{
    reveal_strlit("full_path");
    reveal_strlit("contract_kind");
    reveal_strlit("contract_source");
    reveal_strlit("source_code_hash");
    reveal_strlit("enable_test_encoding");
    reveal_strlit("evm_version");
    reveal_strlit("optimizer_level");
    reveal_strlit("optimizer_fallback_to_size");
    reveal_strlit("optimizer_disable_memoization");
    reveal_strlit("optimizer_jump_table_threshold");
    reveal_strlit("suppressed_warnings");
    reveal_strlit("debug_output_directory");
    assert("full_path"@.len() == 9);
    assert("contract_kind"@.len() == 13);
    assert("contract_source"@.len() == 15);
    assert("source_code_hash"@.len() == 16);
    assert("enable_test_encoding"@.len() == 20);
    assert("evm_version"@.len() == 11);
    assert("optimizer_level"@.len() == 15);
    assert("optimizer_fallback_to_size"@.len() == 26);
    assert("optimizer_disable_memoization"@.len() == 29);
    assert("optimizer_jump_table_threshold"@.len() == 30);
    assert("suppressed_warnings"@.len() == 19);
    assert("debug_output_directory"@.len() == 22);
    assert("optimizer_level"@[0] != "contract_source"@[0]);
}

/// Serializing a valid request and reading it back yields the same
/// request in every field: the wire format loses nothing.
#[verifier::rlimit(100)]
pub proof fn lemma_request_round_trip(i: InputV)
    requires
        i.valid(),
    ensures
        parse_request_spec(ser_request(i)) == Some(i),
{
    lemma_req_names_wf();
    lemma_req_names_distinct();
    lemma_esc_no_newline(i.full_path);
    lemma_unesc_esc(i.full_path);
    lemma_kind_token(i.contract.kind);
    lemma_esc_no_newline(i.contract.source_code);
    lemma_unesc_esc(i.contract.source_code);
    lemma_bool_token(i.enable_test_encoding);
    lemma_hex_plain(seq![i.optimizer_settings.level]);
    lemma_bytes_hex_round_trip(seq![i.optimizer_settings.level]);
    lemma_bool_token(i.optimizer_settings.is_fallback_to_size_enabled);
    lemma_bool_token(i.optimizer_settings.is_system_request_memoization_disabled);
    lemma_warnings_round_trip(i.suppressed_warnings);

    let seg1 = line_of("full_path"@, esc(i.full_path));
    let seg2 = line_of("contract_kind"@, kind_token(i.contract.kind));
    let seg3 = line_of("contract_source"@, esc(i.contract.source_code));
    let seg4: Seq<char> = match i.source_code_hash {
        Some(h) => line_of("source_code_hash"@, hex_of_bytes(h)),
        None => Seq::<char>::empty(),
    };
    let seg5 = line_of("enable_test_encoding"@, bool_token(i.enable_test_encoding));
    let seg6: Seq<char> = match i.evm_version {
        Some(ver) => line_of("evm_version"@, esc(ver)),
        None => Seq::<char>::empty(),
    };
    let seg7 = line_of("optimizer_level"@, hex_of_bytes(seq![i.optimizer_settings.level]));
    let seg8 = line_of(
        "optimizer_fallback_to_size"@,
        bool_token(i.optimizer_settings.is_fallback_to_size_enabled),
    );
    let seg9 = line_of(
        "optimizer_disable_memoization"@,
        bool_token(i.optimizer_settings.is_system_request_memoization_disabled),
    );
    let seg10: Seq<char> = match i.optimizer_settings.jump_table_density_threshold {
        Some(t) => line_of("optimizer_jump_table_threshold"@, hex_of_bytes(be_bytes_of_u32(t))),
        None => Seq::<char>::empty(),
    };
    let seg11 = line_of("suppressed_warnings"@, warnings_value(i.suppressed_warnings));
    let seg12: Seq<char> = match i.debug_config {
        Some(d) => line_of("debug_output_directory"@, esc(d.output_directory)),
        None => Seq::<char>::empty(),
    };

    let r12 = Seq::<char>::empty();
    let r11 = ser_req_from_debug(i);
    let r10 = ser_req_from_warnings(i);
    let r9 = ser_req_from_jump_table(i);
    let r8 = ser_req_from_memoization(i);
    let r7 = ser_req_from_fallback(i);
    let r6 = ser_req_from_level(i);
    let r5 = ser_req_from_evm(i);
    let r4 = ser_req_from_test_encoding(i);
    let r3 = ser_req_from_hash(i);
    let r2 = ser_req_from_source(i);
    let r1 = ser_req_from_kind(i);
    let s = ser_request(i);
    assert(s == seg1 + r1);
    assert(r1 == seg2 + r2);
    assert(r2 == seg3 + r3);
    assert(r3 == seg4 + r4);
    assert(r4 == seg5 + r5);
    assert(r5 == seg6 + r6);
    assert(r6 == seg7 + r7);
    assert(r7 == seg8 + r8);
    assert(r8 == seg9 + r9);
    assert(r9 == seg10 + r10);
    assert(r10 == seg11 + r11);
    assert(r11 == seg12);

    let b0 = req_builder_empty();
    let b1 = ReqBuilderV { full_path: Some(i.full_path), ..b0 };
    let b2 = ReqBuilderV { contract_kind: Some(i.contract.kind), ..b1 };
    let b3 = ReqBuilderV { contract_source: Some(i.contract.source_code), ..b2 };
    let b4 = ReqBuilderV { source_code_hash: i.source_code_hash, ..b3 };
    let b5 = ReqBuilderV { enable_test_encoding: Some(i.enable_test_encoding), ..b4 };
    let b6 = ReqBuilderV { evm_version: i.evm_version, ..b5 };
    let b7 = ReqBuilderV { optimizer_level: Some(i.optimizer_settings.level), ..b6 };
    let b8 = ReqBuilderV {
        optimizer_fallback: Some(i.optimizer_settings.is_fallback_to_size_enabled),
        ..b7
    };
    let b9 = ReqBuilderV {
        optimizer_no_memoization: Some(
            i.optimizer_settings.is_system_request_memoization_disabled,
        ),
        ..b8
    };
    let b10 = ReqBuilderV {
        optimizer_jump_table: i.optimizer_settings.jump_table_density_threshold,
        ..b9
    };
    let b11 = ReqBuilderV { suppressed_warnings: Some(i.suppressed_warnings), ..b10 };
    let b12 = ReqBuilderV {
        debug_output_directory: match i.debug_config {
            Some(d) => Some(d.output_directory),
            None => None,
        },
        ..b11
    };

    lemma_parse_req_line(b0, "full_path"@, esc(i.full_path), r1);
    assert(apply_req_field(b0, "full_path"@, esc(i.full_path)) == Some(b1));
    assert(parse_req_into(b0, s) == parse_req_into(b1, r1));

    lemma_parse_req_line(b1, "contract_kind"@, kind_token(i.contract.kind), r2);
    assert(apply_req_field(b1, "contract_kind"@, kind_token(i.contract.kind)) == Some(b2));
    assert(parse_req_into(b1, r1) == parse_req_into(b2, r2));

    lemma_parse_req_line(b2, "contract_source"@, esc(i.contract.source_code), r3);
    assert(apply_req_field(b2, "contract_source"@, esc(i.contract.source_code)) == Some(b3));
    assert(parse_req_into(b2, r2) == parse_req_into(b3, r3));

    match i.source_code_hash {
        Some(h) => {
            lemma_hex_plain(h);
            lemma_bytes_hex_round_trip(h);
            lemma_parse_req_line(b3, "source_code_hash"@, hex_of_bytes(h), r4);
            assert(apply_req_field(b3, "source_code_hash"@, hex_of_bytes(h)) == Some(b4));
        },
        None => {
            assert(r3 =~= r4);
            assert(b4 == b3);
        },
    }
    assert(parse_req_into(b3, r3) == parse_req_into(b4, r4));

    lemma_parse_req_line(b4, "enable_test_encoding"@, bool_token(i.enable_test_encoding), r5);
    assert(apply_req_field(b4, "enable_test_encoding"@, bool_token(i.enable_test_encoding))
        == Some(b5));
    assert(parse_req_into(b4, r4) == parse_req_into(b5, r5));

    match i.evm_version {
        Some(ver) => {
            lemma_esc_no_newline(ver);
            lemma_unesc_esc(ver);
            lemma_parse_req_line(b5, "evm_version"@, esc(ver), r6);
            assert(apply_req_field(b5, "evm_version"@, esc(ver)) == Some(b6));
        },
        None => {
            assert(r5 =~= r6);
            assert(b6 == b5);
        },
    }
    assert(parse_req_into(b5, r5) == parse_req_into(b6, r6));

    lemma_parse_req_line(
        b6,
        "optimizer_level"@,
        hex_of_bytes(seq![i.optimizer_settings.level]),
        r7,
    );
    assert(apply_req_field(b6, "optimizer_level"@, hex_of_bytes(seq![i.optimizer_settings.level]))
        == Some(b7));
    assert(parse_req_into(b6, r6) == parse_req_into(b7, r7));

    lemma_parse_req_line(
        b7,
        "optimizer_fallback_to_size"@,
        bool_token(i.optimizer_settings.is_fallback_to_size_enabled),
        r8,
    );
    assert(apply_req_field(
        b7,
        "optimizer_fallback_to_size"@,
        bool_token(i.optimizer_settings.is_fallback_to_size_enabled),
    ) == Some(b8));
    assert(parse_req_into(b7, r7) == parse_req_into(b8, r8));

    lemma_parse_req_line(
        b8,
        "optimizer_disable_memoization"@,
        bool_token(i.optimizer_settings.is_system_request_memoization_disabled),
        r9,
    );
    assert(apply_req_field(
        b8,
        "optimizer_disable_memoization"@,
        bool_token(i.optimizer_settings.is_system_request_memoization_disabled),
    ) == Some(b9));
    assert(parse_req_into(b8, r8) == parse_req_into(b9, r9));

    match i.optimizer_settings.jump_table_density_threshold {
        Some(t) => {
            lemma_hex_plain(be_bytes_of_u32(t));
            lemma_bytes_hex_round_trip(be_bytes_of_u32(t));
            lemma_u32_bytes_round_trip(t);
            lemma_parse_req_line(
                b9,
                "optimizer_jump_table_threshold"@,
                hex_of_bytes(be_bytes_of_u32(t)),
                r10,
            );
            assert(be_bytes_of_u32(t).len() == 4);
            assert(apply_req_field(
                b9,
                "optimizer_jump_table_threshold"@,
                hex_of_bytes(be_bytes_of_u32(t)),
            ) == Some(b10));
        },
        None => {
            assert(r9 =~= r10);
            assert(b10 == b9);
        },
    }
    assert(parse_req_into(b9, r9) == parse_req_into(b10, r10));

    lemma_parse_req_line(
        b10,
        "suppressed_warnings"@,
        warnings_value(i.suppressed_warnings),
        r11,
    );
    assert(apply_req_field(b10, "suppressed_warnings"@, warnings_value(i.suppressed_warnings))
        == Some(b11));
    assert(parse_req_into(b10, r10) == parse_req_into(b11, r11));

    match i.debug_config {
        Some(d) => {
            lemma_esc_no_newline(d.output_directory);
            lemma_unesc_esc(d.output_directory);
            lemma_parse_req_line(b11, "debug_output_directory"@, esc(d.output_directory), r12);
            assert(r11 =~= line_of("debug_output_directory"@, esc(d.output_directory)) + r12);
            assert(apply_req_field(b11, "debug_output_directory"@, esc(d.output_directory))
                == Some(b12));
        },
        None => {
            assert(r11 =~= r12);
            assert(b12 == b11);
        },
    }
    assert(parse_req_into(b11, r11) == parse_req_into(b12, r12));

    assert(parse_req_into(b12, r12) == Some(b12));
    assert(parse_req_into(b0, s) == Some(b12));
    assert(finalize_req(b12) == Some(i));
}

/// Distinct valid requests have distinct serialized forms: the wire
/// format never confuses two compilation units.
pub proof fn lemma_serialize_request_injective(a: InputV, b: InputV)
    requires
        a.valid(),
        b.valid(),
        ser_request(a) == ser_request(b),
    ensures
        a == b,
{
    lemma_request_round_trip(a);
    lemma_request_round_trip(b);
}

} // verus!

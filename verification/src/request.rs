//! The data exchanged across the process boundary.
//!
//! A request is fully self-contained: the worker must be able to compile
//! from the request alone, with no ambient input from its working
//! directory or environment. A response wraps exactly one build artifact;
//! failures never travel through it.

use vstd::prelude::*;

verus! {

/// The number of bytes in a source-code hash.
pub const HASH_BYTE_LENGTH: usize = 32;

/// A warning kind that the user may suppress.
#[derive(Debug, Clone, Copy, PartialEq, Eq, Structural)]
pub enum WarningType {
    /// Passing a precompile call through `ecrecover`.
    EcRecover,
    /// Querying a contract's code size.
    ExtCodeSize,
    /// Reading the transaction origin.
    TxOrigin,
}

/// The kind of a compilation unit: exactly one of the three
/// mutually exclusive compilation modes.
#[derive(Debug, Clone, Copy, PartialEq, Eq, Structural)]
pub enum ContractKind {
    /// Structured Vyper source code.
    Vyper,
    /// Raw LLVM IR.
    LlvmIr,
    /// Raw EraVM assembly.
    EraVMAssembly,
}

/// A self-contained contract representation: the worker needs
/// nothing beyond this to compile the unit.
#[derive(Debug, Clone, PartialEq, Eq)]
pub struct Contract {
    /// The compilation mode this unit belongs to.
    pub kind: ContractKind,
    /// The already-resolved source text of the unit.
    pub source_code: String,
}

/// The mathematical model of a contract.
pub ghost struct ContractV {
    /// The compilation mode this unit belongs to.
    pub kind: ContractKind,
    /// The source text as a sequence of characters.
    pub source_code: Seq<char>,
}

impl View for Contract {
    type V = ContractV;

    open spec fn view(&self) -> ContractV {
        ContractV { kind: self.kind, source_code: self.source_code@ }
    }
}

/// The optimizer configuration carried with a request.
#[derive(Debug, Clone, Copy, PartialEq, Eq)]
pub struct OptimizerSettings {
    /// The optimization level.
    pub level: u8,
    /// Whether to retry with size optimization when the bytecode is too large.
    pub is_fallback_to_size_enabled: bool,
    /// Whether the system request memoization is disabled.
    pub is_system_request_memoization_disabled: bool,
    /// The jump table density threshold, if set.
    pub jump_table_density_threshold: Option<u32>,
}

/// The debug/intermediate-output configuration carried with a request.
#[derive(Debug, Clone, PartialEq, Eq)]
pub struct DebugConfig {
    /// The directory all intermediate representations are dumped to.
    pub output_directory: String,
}

/// The mathematical model of a debug configuration.
pub ghost struct DebugConfigV {
    /// The dump directory as a sequence of characters.
    pub output_directory: Seq<char>,
}

impl View for DebugConfig {
    type V = DebugConfigV;

    open spec fn view(&self) -> DebugConfigV {
        DebugConfigV { output_directory: self.output_directory@ }
    }
}

/// The input data of one worker process: one full compilation request.
#[derive(Debug, Clone, PartialEq, Eq)]
pub struct Input {
    /// The contract full path, used only for diagnostics and metadata.
    pub full_path: String,
    /// The contract representation.
    pub contract: Contract,
    /// The source code hash, if reproducible metadata is requested.
    pub source_code_hash: Option<Vec<u8>>,
    /// Enables the test bytecode encoding.
    pub enable_test_encoding: bool,
    /// The EVM target version tag.
    pub evm_version: Option<String>,
    /// The optimizer settings.
    pub optimizer_settings: OptimizerSettings,
    /// The suppressed warnings.
    pub suppressed_warnings: Vec<WarningType>,
    /// The debug output config.
    pub debug_config: Option<DebugConfig>,
}

/// The mathematical model of a compilation request.
pub ghost struct InputV {
    /// The contract full path.
    pub full_path: Seq<char>,
    /// The contract representation.
    pub contract: ContractV,
    /// The source code hash.
    pub source_code_hash: Option<Seq<u8>>,
    /// Enables the test bytecode encoding.
    pub enable_test_encoding: bool,
    /// The EVM target version tag.
    pub evm_version: Option<Seq<char>>,
    /// The optimizer settings.
    pub optimizer_settings: OptimizerSettings,
    /// The suppressed warnings.
    pub suppressed_warnings: Seq<WarningType>,
    /// The debug output config.
    pub debug_config: Option<DebugConfigV>,
}

impl View for Input {
    type V = InputV;

    open spec fn view(&self) -> InputV {
        InputV {
            full_path: self.full_path@,
            contract: self.contract@,
            source_code_hash: match self.source_code_hash {
                Some(hash) => Some(hash@),
                None => None,
            },
            enable_test_encoding: self.enable_test_encoding,
            evm_version: match self.evm_version {
                Some(version) => Some(version@),
                None => None,
            },
            optimizer_settings: self.optimizer_settings,
            suppressed_warnings: self.suppressed_warnings@,
            debug_config: match self.debug_config {
                Some(config) => Some(config@),
                None => None,
            },
        }
    }
}

impl InputV {
    /// A request is well-formed when its source-code hash, if present,
    /// has exactly the fixed field width.
    pub open spec fn valid(self) -> bool {
        match self.source_code_hash {
            Some(hash) => hash.len() == HASH_BYTE_LENGTH,
            None => true,
        }
    }
}

impl Input {
    /// A shortcut constructor. The source-code hash, when given, must
    /// have the fixed field width, so that every built request is
    /// well-formed.
    pub fn new(
        full_path: String,
        contract: Contract,
        source_code_hash: Option<Vec<u8>>,
        enable_test_encoding: bool,
        evm_version: Option<String>,
        optimizer_settings: OptimizerSettings,
        suppressed_warnings: Vec<WarningType>,
        debug_config: Option<DebugConfig>,
    ) -> (result: Self)
        requires
            source_code_hash matches Some(hash) ==> hash@.len() == HASH_BYTE_LENGTH,
        ensures
            result@.valid(),
            result@ == (InputV {
                full_path: full_path@,
                contract: contract@,
                source_code_hash: match source_code_hash {
                    Some(hash) => Some(hash@),
                    None => None,
                },
                enable_test_encoding,
                evm_version: match evm_version {
                    Some(version) => Some(version@),
                    None => None,
                },
                optimizer_settings,
                suppressed_warnings: suppressed_warnings@,
                debug_config: match debug_config {
                    Some(config) => Some(config@),
                    None => None,
                },
            }),
    {
        Self {
            full_path,
            contract,
            source_code_hash,
            enable_test_encoding,
            evm_version,
            optimizer_settings,
            suppressed_warnings,
            debug_config,
        }
    }
}

/// One build artifact: the bytecode and its associated metadata.
#[derive(Debug, Clone, PartialEq, Eq)]
pub struct Build {
    /// The final bytecode of the compiled unit.
    pub bytecode: Vec<u8>,
    /// The metadata attached to the artifact.
    pub metadata: String,
}

/// The mathematical model of a build artifact.
pub ghost struct BuildV {
    /// The final bytecode.
    pub bytecode: Seq<u8>,
    /// The attached metadata.
    pub metadata: Seq<char>,
}

impl View for Build {
    type V = BuildV;

    open spec fn view(&self) -> BuildV {
        BuildV { bytecode: self.bytecode@, metadata: self.metadata@ }
    }
}

/// The output data of one worker process: exactly one build artifact.
/// It is never constructed on failure: failures travel via the process
/// exit code and diagnostic text instead.
#[derive(Debug, Clone, PartialEq, Eq)]
pub struct Output {
    /// The compiled build artifact.
    pub build: Build,
}

/// The mathematical model of a compilation response.
pub ghost struct OutputV {
    /// The compiled build artifact.
    pub build: BuildV,
}

impl View for Output {
    type V = OutputV;

    open spec fn view(&self) -> OutputV {
        OutputV { build: self.build@ }
    }
}

impl Output {
    /// A shortcut constructor.
    pub fn new(build: Build) -> (result: Self)
        ensures
            result@ == (OutputV { build: build@ }),
    {
        Self { build }
    }
}

} // verus!

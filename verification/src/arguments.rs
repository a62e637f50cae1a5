//! The compiler's command-line arguments and the rules that hold
//! between them: at most one compilation mode at a time, no
//! structured-source options in the raw modes, and the version and
//! worker flags each alone.

use vstd::prelude::*;

use crate::request::{ContractKind, OptimizerSettings};

verus! {

/// The result of converting a path to its slash form. Relied on below;
/// the conversion depends on the path text alone.
pub uninterp spec fn slash_of(path: Seq<char>) -> Seq<char>;

/// Relies on `path_slash::PathExt::to_slash`: the slash form of a path,
/// computed from the path text alone. On a path built from a `String`
/// every component is UTF-8 text, so the conversion always succeeds;
/// and converting an already-converted path changes nothing, so the
/// result is a fixed point of the conversion.
#[verifier::external_body]
fn to_slash_text(path: &String) -> (r: Option<String>)
    ensures
        r is Some,
        r matches Some(converted) ==> converted@ == slash_of(path@) && slash_of(converted@)
            == converted@,
{
    path_slash::PathExt::to_slash(std::path::Path::new(path.as_str())).map(|s| s.into_owned())
}

/// Why a set of arguments is rejected.
#[derive(Debug, Clone, Copy, PartialEq, Eq, Structural)]
pub enum ValidationError {
    /// Another option stands beside the version flag.
    VersionExcludesOthers,
    /// Another option stands beside the worker-mode flag.
    RecursiveExcludesOthers,
    /// More than one of the three compilation modes is selected.
    MultipleModes,
    /// A `vyper` executable is named in a raw mode.
    VyperOutsideVyperMode,
    /// An EVM version is named in a raw mode.
    EvmVersionOutsideVyperMode,
    /// An optimization level is set in a raw mode.
    OptimizationOutsideVyperMode,
    /// The size fallback is enabled in a raw mode.
    SizeFallbackOutsideVyperMode,
    /// Memoization is disabled in a raw mode.
    MemoizationOutsideVyperMode,
    /// A jump table threshold is set in a raw mode.
    JumpTableOutsideVyperMode,
    /// Warnings are suppressed in a raw mode.
    WarningSuppressionOutsideVyperMode,
    /// A metadata hash mode is set in a raw mode.
    MetadataHashOutsideVyperMode,
}

impl ValidationError {
    /// The user-facing text of this rejection.
    pub open spec fn message_spec(self) -> Seq<char> {
        match self {
            ValidationError::VersionExcludesOthers =>
                "No other options are allowed while getting the compiler version."@,
            ValidationError::RecursiveExcludesOthers =>
                "No other options are allowed in recursive mode."@,
            ValidationError::MultipleModes =>
                "Only one modes is allowed at the same time: Vyper, LLVM IR, EraVM assembly."@,
            ValidationError::VyperOutsideVyperMode =>
                "`vyper` is not used in LLVM IR and EraVM assembly modes."@,
            ValidationError::EvmVersionOutsideVyperMode =>
                "EVM version is not used in LLVM IR and EraVM assembly modes."@,
            ValidationError::OptimizationOutsideVyperMode =>
                "LLVM optimizations are not supported in LLVM IR and EraVM assembly modes."@,
            ValidationError::SizeFallbackOutsideVyperMode =>
                "Falling back to -Oz is not supported in LLVM IR and EraVM assembly modes."@,
            ValidationError::MemoizationOutsideVyperMode =>
                "Disabling the system request memoization is not supported in LLVM IR and EraVM assembly modes."@,
            ValidationError::JumpTableOutsideVyperMode =>
                "Setting the jump table density threshold is not supported in LLVM IR and EraVM assembly modes."@,
            ValidationError::WarningSuppressionOutsideVyperMode =>
                "Suppressing warnings is not supported in LLVM IR and EraVM assembly modes."@,
            ValidationError::MetadataHashOutsideVyperMode =>
                "Metadata hash mode is not supported in LLVM IR and EraVM assembly modes."@,
        }
    }

    /// Renders the user-facing text of this rejection.
    pub fn message(&self) -> (r: String)
        ensures
            r@ == self.message_spec(),
    {
        match self {
            ValidationError::VersionExcludesOthers => String::from_str(
                "No other options are allowed while getting the compiler version.",
            ),
            ValidationError::RecursiveExcludesOthers => String::from_str(
                "No other options are allowed in recursive mode.",
            ),
            ValidationError::MultipleModes => String::from_str(
                "Only one modes is allowed at the same time: Vyper, LLVM IR, EraVM assembly.",
            ),
            ValidationError::VyperOutsideVyperMode => String::from_str(
                "`vyper` is not used in LLVM IR and EraVM assembly modes.",
            ),
            ValidationError::EvmVersionOutsideVyperMode => String::from_str(
                "EVM version is not used in LLVM IR and EraVM assembly modes.",
            ),
            ValidationError::OptimizationOutsideVyperMode => String::from_str(
                "LLVM optimizations are not supported in LLVM IR and EraVM assembly modes.",
            ),
            ValidationError::SizeFallbackOutsideVyperMode => String::from_str(
                "Falling back to -Oz is not supported in LLVM IR and EraVM assembly modes.",
            ),
            ValidationError::MemoizationOutsideVyperMode => String::from_str(
                "Disabling the system request memoization is not supported in LLVM IR and EraVM assembly modes.",
            ),
            ValidationError::JumpTableOutsideVyperMode => String::from_str(
                "Setting the jump table density threshold is not supported in LLVM IR and EraVM assembly modes.",
            ),
            ValidationError::WarningSuppressionOutsideVyperMode => String::from_str(
                "Suppressing warnings is not supported in LLVM IR and EraVM assembly modes.",
            ),
            ValidationError::MetadataHashOutsideVyperMode => String::from_str(
                "Metadata hash mode is not supported in LLVM IR and EraVM assembly modes.",
            ),
        }
    }
}

/// The Vyper compiler arguments, already read from the command line.
#[derive(Debug, Clone, PartialEq, Eq)]
pub struct Arguments {
    /// Print the version and exit.
    pub version: bool,
    /// The input file paths.
    pub input_files: Vec<String>,
    /// The output directory, if files are to be written.
    pub output_directory: Option<String>,
    /// Overwrite existing files.
    pub overwrite: bool,
    /// The optimization parameter.
    pub optimization: Option<char>,
    /// Recompile for size if the bytecode is too large.
    pub fallback_to_optimizing_for_size: bool,
    /// Disable the system request memoization.
    pub disable_system_request_memoization: bool,
    /// The jump table density threshold.
    pub jump_table_density_threshold: Option<u32>,
    /// Disable the `vyper` LLL IR optimizer.
    pub disable_vyper_optimizer: bool,
    /// The path to the `vyper` executable.
    pub vyper: Option<String>,
    /// The EVM version to generate IR for.
    pub evm_version: Option<String>,
    /// An extra output format string.
    pub format: Option<String>,
    /// Compile a single LLVM IR file.
    pub llvm_ir: bool,
    /// Compile a single EraVM assembly file.
    pub zkasm: bool,
    /// The metadata hash mode.
    pub metadata_hash: Option<String>,
    /// The directory all intermediate representations are dumped to.
    pub debug_output_directory: Option<String>,
    /// The warnings to suppress.
    pub suppress_warnings: Option<Vec<String>>,
    /// Set the `verify-each` option in LLVM.
    pub llvm_verify_each: bool,
    /// Set the `debug-logging` option in LLVM.
    pub llvm_debug_logging: bool,
    /// Run as a worker: read one request, compile it, exit.
    pub recursive_process: bool,
}

/// How many of the three mutually exclusive compilation modes are
/// selected.
pub open spec fn mode_count(a: Arguments) -> int {
    (if a.llvm_ir {
        1int
    } else {
        0int
    }) + (if a.zkasm {
        1int
    } else {
        0int
    }) + (if a.format is Some {
        1int
    } else {
        0int
    })
}

/// The first rule a set of arguments breaks, if any, checked in the
/// order the compiler reports them. `arg_count` is the number of
/// words on the command line, the program name included. The
/// optimizer, warning-suppression, metadata-hash and jump-table
/// settings belong to structured-source mode alone and are rejected in
/// combination with either raw mode.
pub open spec fn validate_spec(a: Arguments, arg_count: int) -> Option<ValidationError> {
    if a.version && arg_count > 2 {
        Some(ValidationError::VersionExcludesOthers)
    } else if a.recursive_process && arg_count > 2 {
        Some(ValidationError::RecursiveExcludesOthers)
    } else if mode_count(a) > 1 {
        Some(ValidationError::MultipleModes)
    } else if (a.llvm_ir || a.zkasm) && a.vyper is Some {
        Some(ValidationError::VyperOutsideVyperMode)
    } else if (a.llvm_ir || a.zkasm) && a.evm_version is Some {
        Some(ValidationError::EvmVersionOutsideVyperMode)
    } else if (a.llvm_ir || a.zkasm) && a.optimization is Some {
        Some(ValidationError::OptimizationOutsideVyperMode)
    } else if (a.llvm_ir || a.zkasm) && a.fallback_to_optimizing_for_size {
        Some(ValidationError::SizeFallbackOutsideVyperMode)
    } else if (a.llvm_ir || a.zkasm) && a.disable_system_request_memoization {
        Some(ValidationError::MemoizationOutsideVyperMode)
    } else if (a.llvm_ir || a.zkasm) && a.jump_table_density_threshold is Some {
        Some(ValidationError::JumpTableOutsideVyperMode)
    } else if (a.llvm_ir || a.zkasm) && a.suppress_warnings is Some {
        Some(ValidationError::WarningSuppressionOutsideVyperMode)
    } else if (a.llvm_ir || a.zkasm) && a.metadata_hash is Some {
        Some(ValidationError::MetadataHashOutsideVyperMode)
    } else {
        None
    }
}

/// The compilation mode the flags select: one of the raw modes if its
/// flag is set, else structured Vyper source.
pub open spec fn contract_kind_spec(a: Arguments) -> ContractKind {
    if a.llvm_ir {
        ContractKind::LlvmIr
    } else if a.zkasm {
        ContractKind::EraVMAssembly
    } else {
        ContractKind::Vyper
    }
}

/// The optimizer level the optimization parameter stands for; anything
/// unrecognized, or no parameter, means the default level.
pub open spec fn optimization_level_spec(parameter: Option<char>) -> u8 {
    match parameter {
        Some(c) => if c == '0' {
            0u8
        } else if c == '1' {
            1u8
        } else if c == '2' {
            2u8
        } else if c == 's' {
            4u8
        } else if c == 'z' {
            5u8
        } else {
            3u8
        },
        None => 3u8,
    }
}

/// The optimizer settings the flags ask for.
pub open spec fn optimizer_settings_spec(a: Arguments) -> OptimizerSettings {
    OptimizerSettings {
        level: optimization_level_spec(a.optimization),
        is_fallback_to_size_enabled: a.fallback_to_optimizing_for_size,
        is_system_request_memoization_disabled: a.disable_system_request_memoization,
        jump_table_density_threshold: a.jump_table_density_threshold,
    }
}

/// Two argument sets that agree everywhere outside the input file
/// list.
pub open spec fn agrees_except_input_files(a: Arguments, b: Arguments) -> bool {
    &&& a.version == b.version
    &&& a.output_directory == b.output_directory
    &&& a.overwrite == b.overwrite
    &&& a.optimization == b.optimization
    &&& a.fallback_to_optimizing_for_size == b.fallback_to_optimizing_for_size
    &&& a.disable_system_request_memoization == b.disable_system_request_memoization
    &&& a.jump_table_density_threshold == b.jump_table_density_threshold
    &&& a.disable_vyper_optimizer == b.disable_vyper_optimizer
    &&& a.vyper == b.vyper
    &&& a.evm_version == b.evm_version
    &&& a.format == b.format
    &&& a.llvm_ir == b.llvm_ir
    &&& a.zkasm == b.zkasm
    &&& a.metadata_hash == b.metadata_hash
    &&& a.debug_output_directory == b.debug_output_directory
    &&& a.suppress_warnings == b.suppress_warnings
    &&& a.llvm_verify_each == b.llvm_verify_each
    &&& a.llvm_debug_logging == b.llvm_debug_logging
    &&& a.recursive_process == b.recursive_process
}

impl Arguments {
    /// A shortcut constructor: no flag set, no option given.
    pub fn new() -> (r: Self)
        ensures
            !r.version,
            r.input_files@.len() == 0,
            r.output_directory is None,
            !r.overwrite,
            r.optimization is None,
            !r.fallback_to_optimizing_for_size,
            !r.disable_system_request_memoization,
            r.jump_table_density_threshold is None,
            !r.disable_vyper_optimizer,
            r.vyper is None,
            r.evm_version is None,
            r.format is None,
            !r.llvm_ir,
            !r.zkasm,
            r.metadata_hash is None,
            r.debug_output_directory is None,
            r.suppress_warnings is None,
            !r.llvm_verify_each,
            !r.llvm_debug_logging,
            !r.recursive_process,
    {
        Arguments {
            version: false,
            input_files: Vec::new(),
            output_directory: None,
            overwrite: false,
            optimization: None,
            fallback_to_optimizing_for_size: false,
            disable_system_request_memoization: false,
            jump_table_density_threshold: None,
            disable_vyper_optimizer: false,
            vyper: None,
            evm_version: None,
            format: None,
            llvm_ir: false,
            zkasm: false,
            metadata_hash: None,
            debug_output_directory: None,
            suppress_warnings: None,
            llvm_verify_each: false,
            llvm_debug_logging: false,
            recursive_process: false,
        }
    }

    /// Validates the arguments against the mode rules. `arg_count` is
    /// the number of words on the command line, the program name
    /// included. Returns the first broken rule, and succeeds exactly
    /// when none is broken.
    pub fn validate(&self, arg_count: usize) -> (r: Result<(), ValidationError>)
        ensures
            (match r {
                Ok(()) => validate_spec(*self, arg_count as int) is None,
                Err(e) => validate_spec(*self, arg_count as int) == Some(e),
            }),
    {
        if self.version && arg_count > 2 {
            Err(ValidationError::VersionExcludesOthers)
        } else if self.recursive_process && arg_count > 2 {
            Err(ValidationError::RecursiveExcludesOthers)
        } else {
            let mut modes: u8 = 0;
            if self.llvm_ir {
                modes = modes + 1;
            }
            if self.zkasm {
                modes = modes + 1;
            }
            if self.format.is_some() {
                modes = modes + 1;
            }
            if modes > 1 {
                Err(ValidationError::MultipleModes)
            } else if (self.llvm_ir || self.zkasm) && self.vyper.is_some() {
                Err(ValidationError::VyperOutsideVyperMode)
            } else if (self.llvm_ir || self.zkasm) && self.evm_version.is_some() {
                Err(ValidationError::EvmVersionOutsideVyperMode)
            } else if (self.llvm_ir || self.zkasm) && self.optimization.is_some() {
                Err(ValidationError::OptimizationOutsideVyperMode)
            } else if (self.llvm_ir || self.zkasm) && self.fallback_to_optimizing_for_size {
                Err(ValidationError::SizeFallbackOutsideVyperMode)
            } else if (self.llvm_ir || self.zkasm) && self.disable_system_request_memoization {
                Err(ValidationError::MemoizationOutsideVyperMode)
            } else if (self.llvm_ir || self.zkasm) && self.jump_table_density_threshold.is_some() {
                Err(ValidationError::JumpTableOutsideVyperMode)
            } else if (self.llvm_ir || self.zkasm) && self.suppress_warnings.is_some() {
                Err(ValidationError::WarningSuppressionOutsideVyperMode)
            } else if (self.llvm_ir || self.zkasm) && self.metadata_hash.is_some() {
                Err(ValidationError::MetadataHashOutsideVyperMode)
            } else {
                Ok(())
            }
        }
    }

    /// The compilation mode these arguments select.
    pub fn contract_kind(&self) -> (kind: ContractKind)
        ensures
            kind == contract_kind_spec(*self),
    {
        if self.llvm_ir {
            ContractKind::LlvmIr
        } else if self.zkasm {
            ContractKind::EraVMAssembly
        } else {
            ContractKind::Vyper
        }
    }

    /// The optimizer settings these arguments ask for.
    pub fn optimizer_settings(&self) -> (settings: OptimizerSettings)
        ensures
            settings == optimizer_settings_spec(*self),
    {
        let level: u8 = match self.optimization {
            Some(c) => {
                if c == '0' {
                    0
                } else if c == '1' {
                    1
                } else if c == '2' {
                    2
                } else if c == 's' {
                    4
                } else if c == 'z' {
                    5
                } else {
                    3
                }
            },
            None => 3,
        };
        OptimizerSettings {
            level,
            is_fallback_to_size_enabled: self.fallback_to_optimizing_for_size,
            is_system_request_memoization_disabled: self.disable_system_request_memoization,
            jump_table_density_threshold: self.jump_table_density_threshold,
        }
    }

    /// Normalizes an input path by converting it to POSIX format. The
    /// conversion of UTF-8 path text always succeeds, and its result
    /// is already in POSIX format: converting it again changes
    /// nothing.
    pub fn path_to_posix(path: &String) -> (r: Result<String, String>)
        ensures
            r is Ok,
            r matches Ok(converted) ==> converted@ == slash_of(path@) && slash_of(converted@)
                == converted@,
            r matches Err(m) ==> m@ == "Input path \""@ + path@ + "\" POSIX conversion error"@,
    {
        match to_slash_text(path) {
            Some(converted) => Ok(converted),
            None => {
                let mut m = String::new();
                m.append("Input path \"");
                m.append(path.as_str());
                m.append("\" POSIX conversion error");
                proof {
                    assert(Seq::<char>::empty() + "Input path \""@ =~= "Input path \""@);
                }
                Err(m)
            },
        }
    }

    /// Normalizes all input paths by converting them to POSIX format:
    /// every path is replaced by its slash form, everything else is
    /// left untouched, and the call succeeds. The converted paths are
    /// fixed points of the conversion, so normalizing a second time
    /// changes nothing.
    pub fn normalize_input_paths(&mut self) -> (r: Result<(), String>)
        ensures
            r is Ok,
            agrees_except_input_files(*old(self), *final(self)),
            final(self).input_files@.len() == old(self).input_files@.len(),
            forall|j: int| 0 <= j < old(self).input_files@.len()
                ==> final(self).input_files@[j]@ == slash_of(old(self).input_files@[j]@),
            forall|j: int| 0 <= j < old(self).input_files@.len() ==> slash_of(
                #[trigger] final(self).input_files@[j]@,
            ) == final(self).input_files@[j]@,
    {
        let n = self.input_files.len();
        let mut k: usize = 0;
        while k < n
            invariant
                k <= n,
                n == self.input_files@.len(),
                self.input_files@.len() == old(self).input_files@.len(),
                agrees_except_input_files(*old(self), *self),
                forall|j: int| 0 <= j < k ==> self.input_files@[j]@ == slash_of(
                    old(self).input_files@[j]@,
                ),
                forall|j: int| 0 <= j < k ==> slash_of(#[trigger] self.input_files@[j]@)
                    == self.input_files@[j]@,
                forall|j: int| k <= j < n ==> self.input_files@[j] == old(self).input_files@[j],
            decreases n - k,
        {
            match Self::path_to_posix(&self.input_files[k]) {
                Ok(converted) => {
                    self.input_files.set(k, converted);
                },
                Err(m) => {
                    return Err(m);
                },
            }
            k += 1;
        }
        Ok(())
    }
}

impl Default for Arguments {
    /// The same arguments `new` builds.
    fn default() -> (r: Self)
        ensures
            !r.version,
            r.input_files@.len() == 0,
            r.output_directory is None,
            !r.overwrite,
            r.optimization is None,
            !r.fallback_to_optimizing_for_size,
            !r.disable_system_request_memoization,
            r.jump_table_density_threshold is None,
            !r.disable_vyper_optimizer,
            r.vyper is None,
            r.evm_version is None,
            r.format is None,
            !r.llvm_ir,
            !r.zkasm,
            r.metadata_hash is None,
            r.debug_output_directory is None,
            r.suppress_warnings is None,
            !r.llvm_verify_each,
            !r.llvm_debug_logging,
            !r.recursive_process,
    {
        Self::new()
    }
}

} // verus!

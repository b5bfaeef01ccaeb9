//! Record types for the structured replies the engine commonly returns.
//!
//! These mirror the JSON the engine emits for its usual queries; callers
//! that want typed access decode a structured reply into one of them.

use vstd::prelude::*;

verus! {

/// One decoded instruction.
#[derive(Debug, Clone, Default)]
pub struct LOpInfo {
    pub esil: Option<String>,
    pub offset: Option<u64>,
    pub opcode: Option<String>,
    pub optype: Option<String>,
    pub size: Option<u64>,
}

/// A function with its decoded instructions.
#[derive(Debug, Clone, Default)]
pub struct LFunctionInfo {
    pub addr: Option<u64>,
    pub name: Option<String>,
    pub ops: Option<Vec<LOpInfo>>,
}

/// The register profile of the analyzed target.
#[derive(Debug, Clone, Default)]
pub struct LRegInfo {
    pub alias_info: Vec<LAliasInfo>,
    pub reg_info: Vec<LRegProfile>,
}

/// A register alias and the role it stands for.
#[derive(Debug, Clone, Default)]
pub struct LAliasInfo {
    pub reg: String,
    pub role: u64,
    pub role_str: String,
}

/// One register: its name, position, width and kind.
#[derive(Debug, Clone, Default)]
pub struct LRegProfile {
    pub name: String,
    pub offset: usize,
    pub size: usize,
    pub type_str: String,
}

/// One flag: a named offset in the target.
#[derive(Debug, Clone, Default)]
pub struct LFlagInfo {
    pub offset: u64,
    pub name: String,
    pub size: u64,
}

/// What the engine reports about the loaded binary.
#[derive(Debug, Clone, Default)]
pub struct LBinInfo {
    pub core: Option<LCoreInfo>,
    pub bin: Option<LBin>,
}

/// The file-level part of the binary report.
#[derive(Debug, Clone, Default)]
pub struct LCoreInfo {
    pub file: Option<String>,
    pub size: Option<usize>,
}

/// The format-level part of the binary report.
#[derive(Debug, Clone, Default)]
pub struct LBin {
    pub arch: Option<String>,
}

/// A function as the analysis lists it, with references and locals.
#[derive(Debug, Clone, Default)]
pub struct FunctionInfo {
    pub callrefs: Option<Vec<LCallInfo>>,
    pub calltype: Option<String>,
    pub codexrefs: Option<Vec<LCallInfo>>,
    pub datarefs: Option<Vec<u64>>,
    pub dataxrefs: Option<Vec<u64>>,
    pub name: Option<String>,
    pub offset: Option<u64>,
    pub realsz: Option<u64>,
    pub size: Option<u64>,
    pub ftype: Option<String>,
    pub locals: Option<Vec<LVarInfo>>,
}

/// One call reference between two places in the target.
#[derive(Debug, Clone, Default)]
pub struct LCallInfo {
    pub target: Option<u64>,
    pub call_type: Option<String>,
    pub source: Option<u64>,
}

/// One section of the binary.
#[derive(Debug, Clone, Default)]
pub struct LSectionInfo {
    pub flags: Option<String>,
    pub name: Option<String>,
    pub paddr: Option<u64>,
    pub size: Option<u64>,
    pub vaddr: Option<u64>,
    pub vsize: Option<u64>,
}

/// One string found in the target.
#[derive(Debug, Clone, Default)]
pub struct LStringInfo {
    pub length: Option<u64>,
    pub ordinal: Option<u64>,
    pub paddr: Option<u64>,
    pub section: Option<String>,
    pub size: Option<u64>,
    pub string: Option<String>,
    pub vaddr: Option<u64>,
    pub stype: Option<String>,
}

/// One local variable or argument of a function.
#[derive(Debug, Clone, Default)]
pub struct LVarInfo {
    pub name: Option<String>,
    pub kind: Option<String>,
    pub vtype: Option<String>,
    pub reference: Option<LVarRef>,
}

/// Where a variable lives: a base register and an offset from it.
#[derive(Debug, Clone, Default)]
pub struct LVarRef {
    pub base: Option<String>,
    pub offset: Option<i64>,
}

} // verus!

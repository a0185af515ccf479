use vstd::prelude::*;

verus! {

/// Why loading a contract module failed. Loading aborts only the attempted
/// append: the chain is left exactly as it was.
#[derive(Debug)]
pub enum LoadError {
    /// The module file could not be found or read.
    ModuleNotFound(String),
    /// The file was read but its bytecode failed to validate or compile.
    InvalidModule(String),
    /// The module could not be instantiated inside the sandboxed environment.
    Instantiation(String),
}

/// Why executing a block's contract failed. The offending block's payload
/// (the contract identifier) is carried for diagnosability.
#[derive(Debug)]
pub enum ExecError {
    /// The instance exports no entry point under the expected name.
    MissingEntryPoint { contract: String, message: String },
    /// The entry point was found but the call trapped or faulted.
    Trap { contract: String, message: String },
}

impl ExecError {
    /// The payload of the block whose execution failed.
    pub open spec fn contract_view(&self) -> Seq<char> {
        match self {
            ExecError::MissingEntryPoint { contract, .. } => contract@,
            ExecError::Trap { contract, .. } => contract@,
        }
    }
}

/// What invoking a contract's entry point reported, before the block's
/// payload is attached: the export was missing, or the call failed.
#[derive(Debug)]
pub enum CallError {
    MissingEntryPoint(String),
    Trap(String),
}

/// A block lookup with an index past the end of the chain.
#[derive(Debug)]
pub enum ChainError {
    OutOfRange { index: usize, len: usize },
}

} // verus!

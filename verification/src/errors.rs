//! The diagnostics a compilation can end with. Every failure is terminal for
//! the current compilation: no partial output is delivered.
use vstd::prelude::*;

verus! {

/// Why a compilation failed.
#[derive(Debug, PartialEq, Eq)]
pub enum CompileError {
    /// An identifier was used without a prior declaration; carries the name.
    UndefinedSymbol(String),
    /// Division or remainder by zero during constant folding.
    ArithmeticFault,
    /// An intermediate-representation value of a kind this generator does
    /// not handle reached code generation.
    UnsupportedConstruct,
    /// More live values than the fixed register pool can hold; there is no
    /// spill path.
    RegisterPoolExhausted,
}

impl CompileError {
    /// A short diagnostic label, one per failure kind.
    pub fn label(&self) -> (r: &'static str)
        ensures
            self is UndefinedSymbol ==> r@ == "undefined symbol"@,
            self is ArithmeticFault ==> r@ == "division by zero in constant expression"@,
            self is UnsupportedConstruct ==> r@ == "unsupported construct reached code generation"@,
            self is RegisterPoolExhausted ==> r@ == "register pool exhausted"@,
    {
        match self {
            CompileError::UndefinedSymbol(_) => "undefined symbol",
            CompileError::ArithmeticFault => "division by zero in constant expression",
            CompileError::UnsupportedConstruct => "unsupported construct reached code generation",
            CompileError::RegisterPoolExhausted => "register pool exhausted",
        }
    }
}

} // verus!

//! The linter's interface to build-file modules. The checks themselves run
//! over the language front-end's syntax tree, which lives outside this
//! library; implementors of [`AstModuleLint`] surface their findings as
//! plain [`Lint`] values.

use vstd::prelude::*;
use std::collections::HashSet;

verus! {

/// How serious a lint finding is.
#[derive(Clone, Copy, Debug, PartialEq, Eq, Structural)]
pub enum EvalSeverity {
    Error,
    Warning,
    Advice,
    Disabled,
}

/// One lint finding: a stable short name for the check, its severity, and
/// a human-readable description of the problem.
#[derive(Clone, Debug)]
pub struct Lint {
    pub short_name: String,
    pub severity: EvalSeverity,
    pub problem: String,
}

/// Run the linter.
pub trait AstModuleLint {
    /// Run a static linter over the module. If the complete set of global
    /// variables are known they can be passed as the `globals` argument,
    /// resulting in name-resolution lint errors. The precise checks run by
    /// the linter are not considered stable between versions.
    fn lint(&self, globals: Option<&HashSet<String>>) -> Vec<Lint>;
}

} // verus!

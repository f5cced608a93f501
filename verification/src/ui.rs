//! Terminal prompts.
use vstd::prelude::*;

verus! {

/// Asks the user questions on the terminal. The prompting itself needs the
/// terminal, which the caller provides.
#[derive(Debug, Clone, Copy)]
pub struct CliUi;

} // verus!

use vstd::prelude::*;

verus! {

/// The build-time configuration surface: which optional parts of the
/// vocabulary are recognized, and whether source positions are attached to
/// conversion failures.  Both resolvers consult this value at conversion
/// time, so one build can serve several configurations.
#[derive(Clone, Copy, Debug, PartialEq, Eq, Structural)]
pub struct ExtensionConfig {
    /// Attach source positions to conversion failures.
    pub position: bool,
    /// Recognize the floating-point type and the floating-point operations.
    pub float: bool,
    /// Recognize the pointer type and the heap operations.
    pub memory: bool,
    /// Recognize the phi value operation.
    pub ssa: bool,
    /// Recognize the speculative-execution effect operations.
    pub speculate: bool,
}

impl ExtensionConfig {
    /// A configuration with every extension disabled and no position
    /// tracking: only the core vocabulary is recognized.
    pub fn minimal() -> (r: ExtensionConfig)
        ensures
            r == (ExtensionConfig {
                position: false,
                float: false,
                memory: false,
                ssa: false,
                speculate: false,
            }),
    {
        ExtensionConfig { position: false, float: false, memory: false, ssa: false, speculate: false }
    }
}

} // verus!

use vstd::prelude::*;

verus! {

/// The memory part of a resource specification. Each field is absent, `-1`
/// (unlimited), `0`, or a positive number of bytes; which of these are
/// accepted differs per field.
#[derive(Debug, Clone, Copy, PartialEq, Eq, Structural, Default)]
pub struct MemorySpec {
    /// Hard limit on memory use.
    pub limit: Option<i64>,
    /// Soft limit on memory use.
    pub reservation: Option<i64>,
    /// Limit on memory and swap together.
    pub swap: Option<i64>,
}

/// The resource specification of a container, one optional part per kind.
#[derive(Debug, Clone, Copy, PartialEq, Eq, Structural, Default)]
pub struct Resources {
    pub memory: Option<MemorySpec>,
}

/// What a controller is given for one apply call.
#[derive(Debug, Clone, Copy, PartialEq, Eq, Structural, Default)]
pub struct ControllerOpt {
    pub resources: Resources,
}

} // verus!

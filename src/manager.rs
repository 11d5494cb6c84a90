//! The build phase of an apply call: every controller is run over the
//! resource specification, and the first rejection aborts the call.
use vstd::prelude::*;
use crate::error::ValidationError;
use crate::memory::{memory_settings, memory_writes, with_memory_properties, Memory};
use crate::options::ControllerOpt;
use crate::plan::{contents_after, lemma_writes_idempotent, CgroupFile, FileValue, FileWrite, WritePlan};
use crate::property::{PropertyName, PropertySink, PropertyValue};

verus! {

/// The unit properties for `o`, or the first rejection.
pub open spec fn resource_properties(o: ControllerOpt) -> Result<Map<PropertyName, PropertyValue>, ValidationError> {
    match o.resources.memory {
        None => Ok(Map::empty()),
        Some(m) => match memory_settings(m) {
            Ok(s) => Ok(with_memory_properties(Map::empty(), s)),
            Err(e) => Err(e),
        },
    }
}

/// The file writes for `o`, in order, or the first rejection.
pub open spec fn resource_writes(o: ControllerOpt) -> Result<Seq<FileWrite>, ValidationError> {
    match o.resources.memory {
        None => Ok(Seq::empty()),
        Some(m) => match memory_settings(m) {
            Ok(s) => Ok(memory_writes(s)),
            Err(e) => Err(e),
        },
    }
}

/// Builds the unit properties for one apply call of the unit-property
/// backend.
pub fn build_properties(options: &ControllerOpt, pid: u32) -> (r: Result<PropertySink, ValidationError>)
    ensures
        match resource_properties(*options) {
            Ok(p) => r matches Ok(sink) && sink@ == p,
            Err(e) => r matches Err(x) && x == e,
        },
{
    let mut sink = PropertySink::new();
    Memory::apply(options, pid, &mut sink)?;
    Ok(sink)
}

/// Builds the ordered file writes for one apply call of the filesystem
/// backend.
pub fn build_write_plan(options: &ControllerOpt) -> (r: Result<WritePlan, ValidationError>)
    ensures
        match resource_writes(*options) {
            Ok(w) => r matches Ok(plan) && plan@ == w,
            Err(e) => r matches Err(x) && x == e,
        },
{
    let mut plan = WritePlan::new();
    Memory::apply_files(options, &mut plan)?;
    proof {
        if let Some(m) = options.resources.memory {
            if let Ok(s) = memory_settings(m) {
                assert(plan@ =~= memory_writes(s));
            }
        }
    }
    Ok(plan)
}

/// Applying the same specification twice through the filesystem backend
/// leaves the cgroup files as applying it once.
pub proof fn lemma_file_apply_idempotent(o: ControllerOpt, c: Map<CgroupFile, FileValue>)
    ensures
        resource_writes(o) matches Ok(w) ==> contents_after(contents_after(c, w), w) == contents_after(c, w),
{
    if let Ok(w) = resource_writes(o) {
        lemma_writes_idempotent(c, w);
    }
}

} // verus!

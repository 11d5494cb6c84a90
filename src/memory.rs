use vstd::prelude::*;
use crate::error::ValidationError;
use crate::options::{ControllerOpt, MemorySpec};
use crate::plan::{CgroupFile, FileValue, FileWrite, WritePlan};
use crate::property::{PropertyName, PropertySink, PropertyValue};

verus! {

/// Memory settings in the terms of the modern cgroup generation, before
/// they are handed to a backend. `u64::MAX` stands for unlimited.
#[derive(Debug, Clone, Copy, PartialEq, Eq, Structural)]
pub struct MemorySettings {
    /// Soft limit (`MemoryLow`, `memory.low`).
    pub low: Option<u64>,
    /// Hard limit (`MemoryMax`, `memory.max`).
    pub max: Option<u64>,
    /// Swap on top of memory (`MemorySwapMax`, `memory.swap.max`).
    pub swap_max: Option<u64>,
}

/// The swap setting for a memory limit and a combined memory+swap value.
///
/// The specification states swap as memory and swap together, while the
/// modern generation wants swap alone, so the limit is taken off it:
///
/// | limit            | swap          | result                     |
/// |------------------|---------------|----------------------------|
/// | `-1`             | absent        | unlimited                  |
/// | any              | `-1`          | unlimited                  |
/// | any              | `0`           | error                      |
/// | absent, `0`, `-1`| positive      | error                      |
/// | `l`              | `s`, `l < s`  | `s - l`                    |
/// | otherwise        |               | nothing                    |
pub open spec fn swap_resolution(limit: Option<i64>, swap: Option<i64>) -> Result<Option<u64>, ValidationError> {
    match swap {
        None => if limit == Some(-1i64) {
            Ok(Some(u64::MAX))
        } else {
            Ok(None)
        },
        Some(s) => if s == -1 {
            Ok(Some(u64::MAX))
        } else if s == 0 {
            Err(ValidationError::Swap { swap: s, limit })
        } else {
            match limit {
                None => if s > 0 {
                    Err(ValidationError::Swap { swap: s, limit })
                } else {
                    Ok(None)
                },
                Some(l) => if s > 0 && (l == 0 || l == -1) {
                    Err(ValidationError::Swap { swap: s, limit })
                } else if l < s {
                    Ok(Some((s - l) as u64))
                } else {
                    Ok(None)
                },
            }
        },
    }
}

/// A present value as a byte count.
pub open spec fn as_bytes(v: Option<i64>) -> Option<u64> {
    match v {
        Some(x) => Some(x as u64),
        None => None,
    }
}

/// The settings for a memory specification: the reservation is checked
/// first, then the limit, then swap. Reservation and limit must be positive
/// when present and pass through unchanged.
pub open spec fn memory_settings(m: MemorySpec) -> Result<MemorySettings, ValidationError> {
    if m.reservation is Some && m.reservation->0 <= 0 {
        Err(ValidationError::Reservation(m.reservation->0))
    } else if m.limit is Some && m.limit->0 <= 0 {
        Err(ValidationError::Limit(m.limit->0))
    } else {
        match swap_resolution(m.limit, m.swap) {
            Err(e) => Err(e),
            Ok(swap_max) => Ok(MemorySettings { low: as_bytes(m.reservation), max: as_bytes(m.limit), swap_max }),
        }
    }
}

/// The properties `p` with `name` set to `v`, where `v` is present.
pub open spec fn with_optional(
    p: Map<PropertyName, PropertyValue>,
    name: PropertyName,
    v: Option<u64>,
) -> Map<PropertyName, PropertyValue> {
    match v {
        Some(x) => p.insert(name, PropertyValue::U64(x)),
        None => p,
    }
}

/// The properties `p` with the settings `s` added.
pub open spec fn with_memory_properties(
    p: Map<PropertyName, PropertyValue>,
    s: MemorySettings,
) -> Map<PropertyName, PropertyValue> {
    with_optional(
        with_optional(with_optional(p, PropertyName::MemoryLow, s.low), PropertyName::MemoryMax, s.max),
        PropertyName::MemorySwapMax,
        s.swap_max,
    )
}

/// The properties after the memory specification `m` was applied to `p`:
/// unchanged where `m` is rejected.
pub open spec fn memory_applied(
    p: Map<PropertyName, PropertyValue>,
    m: MemorySpec,
) -> Map<PropertyName, PropertyValue> {
    match memory_settings(m) {
        Ok(s) => with_memory_properties(p, s),
        Err(_) => p,
    }
}

/// One write of `v` to `file`, where `v` is present.
pub open spec fn optional_write(file: CgroupFile, v: Option<u64>) -> Seq<FileWrite> {
    match v {
        Some(x) => seq![FileWrite { file, value: FileValue::spec_from_bytes(x) }],
        None => Seq::empty(),
    }
}

/// The file writes for settings `s`: the soft limit, then the hard limit,
/// then swap, which the kernel checks against the limit.
pub open spec fn memory_writes(s: MemorySettings) -> Seq<FileWrite> {
    optional_write(CgroupFile::MemoryLow, s.low) + optional_write(CgroupFile::MemoryMax, s.max)
        + optional_write(CgroupFile::MemorySwapMax, s.swap_max)
}

/// The plan `p` after the memory specification `m` was planned into it:
/// unchanged where `m` is rejected.
pub open spec fn memory_planned(p: Seq<FileWrite>, m: MemorySpec) -> Seq<FileWrite> {
    match memory_settings(m) {
        Ok(s) => p + memory_writes(s),
        Err(_) => p,
    }
}

/// Whether a step succeeded, without its value.
pub open spec fn outcome<T>(r: Result<T, ValidationError>) -> Result<(), ValidationError> {
    match r {
        Ok(_) => Ok(()),
        Err(e) => Err(e),
    }
}

impl MemorySettings {
    /// Validates a memory specification and resolves it into settings.
    pub fn resolve(m: &MemorySpec) -> (r: Result<MemorySettings, ValidationError>)
        ensures
            r == memory_settings(*m),
    {
        if let Some(r) = m.reservation {
            if r <= 0 {
                return Err(ValidationError::Reservation(r));
            }
        }
        if let Some(l) = m.limit {
            if l <= 0 {
                return Err(ValidationError::Limit(l));
            }
        }
        let swap_max = resolve_swap(m.swap, m.limit)?;
        Ok(MemorySettings {
            low: match m.reservation { Some(r) => Some(r as u64), None => None },
            max: match m.limit { Some(l) => Some(l as u64), None => None },
            swap_max,
        })
    }
}

/// Resolves the swap setting, see [`swap_resolution`].
pub fn resolve_swap(swap: Option<i64>, limit: Option<i64>) -> (r: Result<Option<u64>, ValidationError>)
    ensures
        r == swap_resolution(limit, swap),
{
    match swap {
        None => if limit == Some(-1i64) {
            Ok(Some(u64::MAX))
        } else {
            Ok(None)
        },
        Some(s) => if s == -1 {
            Ok(Some(u64::MAX))
        } else if s == 0 {
            Err(ValidationError::Swap { swap: s, limit })
        } else {
            match limit {
                None => if s > 0 {
                    Err(ValidationError::Swap { swap: s, limit })
                } else {
                    Ok(None)
                },
                Some(l) => if s > 0 && (l == 0 || l == -1) {
                    Err(ValidationError::Swap { swap: s, limit })
                } else if l < s {
                    Ok(Some(((s as i128) - (l as i128)) as u64))
                } else {
                    Ok(None)
                },
            }
        },
    }
}

fn insert_optional(sink: &mut PropertySink, name: PropertyName, v: Option<u64>)
    ensures
        final(sink)@ == with_optional(old(sink)@, name, v),
{
    if let Some(x) = v {
        sink.insert(name, PropertyValue::U64(x));
    }
}

fn push_optional(plan: &mut WritePlan, file: CgroupFile, v: Option<u64>)
    ensures
        final(plan)@ == old(plan)@ + optional_write(file, v),
{
    match v {
        Some(x) => {
            let value = FileValue::from_bytes(x);
            plan.push(file, value);
            assert(final(plan)@ =~= old(plan)@ + optional_write(file, v));
        },
        None => {
            assert(plan@ =~= old(plan)@ + optional_write(file, v));
        },
    }
}

impl MemorySettings {
    /// Appends the writes for these settings to `plan`.
    pub fn write_to(&self, plan: &mut WritePlan)
        ensures
            final(plan)@ == old(plan)@ + memory_writes(*self),
    {
        push_optional(plan, CgroupFile::MemoryLow, self.low);
        push_optional(plan, CgroupFile::MemoryMax, self.max);
        push_optional(plan, CgroupFile::MemorySwapMax, self.swap_max);
        assert(plan@ =~= old(plan)@ + memory_writes(*self));
    }
}

/// The memory controller.
pub struct Memory {}

impl Memory {
    /// Adds the memory settings of `options` to `sink`. A specification
    /// without a memory part leaves `sink` as it is; a rejected one leaves it
    /// as it is and returns the error.
    pub fn apply(options: &ControllerOpt, _pid: u32, sink: &mut PropertySink) -> (r: Result<(), ValidationError>)
        ensures
            match options.resources.memory {
                None => r is Ok && final(sink)@ == old(sink)@,
                Some(m) => r == outcome(memory_settings(m)) && final(sink)@ == memory_applied(old(sink)@, m),
            },
    {
        match &options.resources.memory {
            Some(m) => Self::apply_memory(m, sink),
            None => Ok(()),
        }
    }

    /// Appends the file writes for the memory settings of `options` to
    /// `plan`. A specification without a memory part leaves `plan` as it is;
    /// a rejected one leaves it as it is and returns the error.
    pub fn apply_files(options: &ControllerOpt, plan: &mut WritePlan) -> (r: Result<(), ValidationError>)
        ensures
            match options.resources.memory {
                None => r is Ok && final(plan)@ == old(plan)@,
                Some(m) => r == outcome(memory_settings(m)) && final(plan)@ == memory_planned(old(plan)@, m),
            },
    {
        match &options.resources.memory {
            Some(m) => {
                let s = MemorySettings::resolve(m)?;
                s.write_to(plan);
                Ok(())
            },
            None => Ok(()),
        }
    }

    /// Adds the settings of one memory specification to `sink`.
    pub fn apply_memory(memory: &MemorySpec, sink: &mut PropertySink) -> (r: Result<(), ValidationError>)
        ensures
            r == outcome(memory_settings(*memory)),
            final(sink)@ == memory_applied(old(sink)@, *memory),
    {
        let s = MemorySettings::resolve(memory)?;
        Self::emit(&s, sink);
        Ok(())
    }

    /// Adds the swap setting for `swap` and `limit` to `sink`.
    pub fn apply_swap(swap: Option<i64>, limit: Option<i64>, sink: &mut PropertySink) -> (r: Result<(), ValidationError>)
        ensures
            r == outcome(swap_resolution(limit, swap)),
            match swap_resolution(limit, swap) {
                Ok(v) => final(sink)@ == with_optional(old(sink)@, PropertyName::MemorySwapMax, v),
                Err(_) => final(sink)@ == old(sink)@,
            },
    {
        let v = resolve_swap(swap, limit)?;
        insert_optional(sink, PropertyName::MemorySwapMax, v);
        Ok(())
    }

    /// Adds resolved settings to `sink`.
    pub fn emit(s: &MemorySettings, sink: &mut PropertySink)
        ensures
            final(sink)@ == with_memory_properties(old(sink)@, *s),
    {
        insert_optional(sink, PropertyName::MemoryLow, s.low);
        insert_optional(sink, PropertyName::MemoryMax, s.max);
        insert_optional(sink, PropertyName::MemorySwapMax, s.swap_max);
    }
}

/// A positive limit or reservation is emitted as the same number of bytes:
/// once the specification is accepted, `MemoryMax` holds the limit and
/// `MemoryLow` the reservation, unchanged. With positive values only swap can
/// still reject the specification.
pub proof fn lemma_positive_values_pass_through(m: MemorySpec, p: Map<PropertyName, PropertyValue>)
    requires
        m.limit is Some ==> m.limit->0 > 0,
        m.reservation is Some ==> m.reservation->0 > 0,
    ensures
        memory_settings(m) is Ok <==> swap_resolution(m.limit, m.swap) is Ok,
        memory_settings(m) is Ok && m.limit is Some ==> {
            &&& memory_applied(p, m).contains_key(PropertyName::MemoryMax)
            &&& memory_applied(p, m)[PropertyName::MemoryMax] == PropertyValue::U64(m.limit->0 as u64)
            &&& (m.limit->0 as u64) as int == m.limit->0 as int
        },
        memory_settings(m) is Ok && m.reservation is Some ==> {
            &&& memory_applied(p, m).contains_key(PropertyName::MemoryLow)
            &&& memory_applied(p, m)[PropertyName::MemoryLow] == PropertyValue::U64(m.reservation->0 as u64)
            &&& (m.reservation->0 as u64) as int == m.reservation->0 as int
        },
{
}

/// A limit or reservation that is present and not positive rejects the
/// whole memory specification, and nothing is emitted.
pub proof fn lemma_non_positive_values_rejected(m: MemorySpec, p: Map<PropertyName, PropertyValue>)
    requires
        (m.limit is Some && m.limit->0 <= 0) || (m.reservation is Some && m.reservation->0 <= 0),
    ensures
        memory_settings(m) matches Err(e) && (e is Reservation || e is Limit),
        memory_applied(p, m) == p,
{
}

/// Applying the same memory specification twice leaves the same properties
/// as applying it once.
pub proof fn lemma_apply_idempotent(m: MemorySpec, p: Map<PropertyName, PropertyValue>)
    ensures
        memory_applied(memory_applied(p, m), m) == memory_applied(p, m),
{
    if let Ok(s) = memory_settings(m) {
        let once = with_memory_properties(p, s);
        assert(with_memory_properties(once, s) =~= once);
    }
}

} // verus!

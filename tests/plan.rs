use cgroups_memory::error::ValidationError;
use cgroups_memory::freezer::{Freezer, FreezerState};
use cgroups_memory::manager::build_write_plan;
use cgroups_memory::options::{ControllerOpt, MemorySpec, Resources};
use cgroups_memory::plan::{CgroupFile, FileValue, FileWrite, WritePlan};
use cgroups_memory::property::PropertyName;

fn opts(limit: Option<i64>, reservation: Option<i64>, swap: Option<i64>) -> ControllerOpt {
    ControllerOpt { resources: Resources { memory: Some(MemorySpec { limit, reservation, swap }) } }
}

#[test]
fn plan_writes_limit_before_swap() {
    let plan = build_write_plan(&opts(Some(100), Some(40), Some(-1))).unwrap();
    assert_eq!(
        plan.writes(),
        &[
            FileWrite { file: CgroupFile::MemoryLow, value: FileValue::Number(40) },
            FileWrite { file: CgroupFile::MemoryMax, value: FileValue::Number(100) },
            FileWrite { file: CgroupFile::MemorySwapMax, value: FileValue::Max },
        ][..]
    );
}

#[test]
fn plan_swap_delta() {
    let plan = build_write_plan(&opts(Some(1000), None, Some(1500))).unwrap();
    assert_eq!(
        plan.writes(),
        &[
            FileWrite { file: CgroupFile::MemoryMax, value: FileValue::Number(1000) },
            FileWrite { file: CgroupFile::MemorySwapMax, value: FileValue::Number(500) },
        ][..]
    );
}

#[test]
fn plan_rejects_like_properties() {
    let r = build_write_plan(&opts(Some(100), None, Some(0)));
    assert_eq!(r.err(), Some(ValidationError::Swap { swap: 0, limit: Some(100) }));
    let r = build_write_plan(&opts(Some(0), None, None));
    assert_eq!(r.err(), Some(ValidationError::Limit(0)));
}

#[test]
fn plan_without_memory_is_empty() {
    let plan = build_write_plan(&ControllerOpt { resources: Resources { memory: None } }).unwrap();
    assert!(plan.writes().is_empty());
}

#[test]
fn plan_built_twice_is_the_same() {
    let o = opts(Some(100), Some(40), Some(300));
    let a = build_write_plan(&o).unwrap();
    let b = build_write_plan(&o).unwrap();
    assert_eq!(a.writes(), b.writes());
}

#[test]
fn file_value_text() {
    assert_eq!(FileValue::Max.text(), "max");
    assert_eq!(FileValue::Number(0).text(), "0");
    assert_eq!(FileValue::Number(1234).text(), "1234");
    assert_eq!(FileValue::Number(u64::MAX - 1).text(), "18446744073709551614");
    assert_eq!(FileValue::from_bytes(u64::MAX), FileValue::Max);
    assert_eq!(FileValue::from_bytes(7), FileValue::Number(7));
}

#[test]
fn names_are_exact() {
    assert_eq!(CgroupFile::MemoryLow.file_name(), "memory.low");
    assert_eq!(CgroupFile::MemoryMax.file_name(), "memory.max");
    assert_eq!(CgroupFile::MemorySwapMax.file_name(), "memory.swap.max");
    assert_eq!(CgroupFile::CgroupFreeze.file_name(), "cgroup.freeze");
    assert_eq!(PropertyName::MemoryLow.as_str(), "MemoryLow");
    assert_eq!(PropertyName::MemoryMax.as_str(), "MemoryMax");
    assert_eq!(PropertyName::MemorySwapMax.as_str(), "MemorySwapMax");
}

#[test]
fn freezer_freeze_then_thaw() {
    let mut f = Freezer::new(FreezerState::Thawed);
    assert!(f.freeze());
    assert_eq!(f.state(), FreezerState::Frozen);
    assert!(f.thaw());
    assert_eq!(f.state(), FreezerState::Thawed);
}

#[test]
fn freezer_requests_are_idempotent() {
    let mut f = Freezer::new(FreezerState::Frozen);
    assert!(!f.freeze());
    assert_eq!(f.state(), FreezerState::Frozen);
    assert!(!f.request(FreezerState::Frozen));
    assert_eq!(f.state(), FreezerState::Frozen);
    let mut g = Freezer::new(FreezerState::Thawed);
    assert!(!g.thaw());
    assert_eq!(g.state(), FreezerState::Thawed);
}

#[test]
fn freezer_file_writes() {
    let mut plan = WritePlan::new();
    Freezer::apply_files(FreezerState::Frozen, &mut plan);
    Freezer::apply_files(FreezerState::Thawed, &mut plan);
    assert_eq!(
        plan.writes(),
        &[
            FileWrite { file: CgroupFile::CgroupFreeze, value: FileValue::Number(1) },
            FileWrite { file: CgroupFile::CgroupFreeze, value: FileValue::Number(0) },
        ][..]
    );
    assert_eq!(plan.writes()[0].value.text(), "1");
}

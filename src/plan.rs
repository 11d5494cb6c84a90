//! The output of the filesystem backend: an ordered list of values to write
//! into the files of a cgroup directory.
use vstd::prelude::*;

verus! {

/// The cgroup files that controllers may write.
#[derive(Debug, Clone, Copy, PartialEq, Eq, Structural)]
pub enum CgroupFile {
    MemoryLow,
    MemoryMax,
    MemorySwapMax,
    CgroupFreeze,
}

impl CgroupFile {
    pub open spec fn spec_name(self) -> Seq<char> {
        match self {
            CgroupFile::MemoryLow => "memory.low"@,
            CgroupFile::MemoryMax => "memory.max"@,
            CgroupFile::MemorySwapMax => "memory.swap.max"@,
            CgroupFile::CgroupFreeze => "cgroup.freeze"@,
        }
    }

    /// The file's name inside the cgroup directory.
    pub fn file_name(&self) -> (r: &'static str)
        ensures
            r@ == self.spec_name(),
    {
        match self {
            CgroupFile::MemoryLow => "memory.low",
            CgroupFile::MemoryMax => "memory.max",
            CgroupFile::MemorySwapMax => "memory.swap.max",
            CgroupFile::CgroupFreeze => "cgroup.freeze",
        }
    }
}

/// A value for a cgroup file: the `max` token, or a number.
#[derive(Debug, Clone, Copy, PartialEq, Eq, Structural)]
pub enum FileValue {
    Max,
    Number(u64),
}

/// The decimal digit for `d`, which is below ten.
pub open spec fn digit_char(d: nat) -> char {
    ((d + 48) as u8) as char
}

/// The decimal form of `n`, without sign or leading zeros.
pub open spec fn decimal(n: nat) -> Seq<char>
    decreases n,
{
    if n < 10 {
        seq![digit_char(n)]
    } else {
        decimal(n / 10).push(digit_char(n % 10))
    }
}

impl FileValue {
    /// A byte count as a file value: `u64::MAX` stands for unlimited.
    pub open spec fn spec_from_bytes(v: u64) -> FileValue {
        if v == u64::MAX {
            FileValue::Max
        } else {
            FileValue::Number(v)
        }
    }

    pub open spec fn spec_text(self) -> Seq<char> {
        match self {
            FileValue::Max => "max"@,
            FileValue::Number(n) => decimal(n as nat),
        }
    }

    /// A byte count as a file value: `u64::MAX` stands for unlimited.
    pub fn from_bytes(v: u64) -> (r: FileValue)
        ensures
            r == FileValue::spec_from_bytes(v),
    {
        if v == u64::MAX {
            FileValue::Max
        } else {
            FileValue::Number(v)
        }
    }

    /// The text written into the file.
    pub fn text(&self) -> (r: String)
        ensures
            r@ == self.spec_text(),
    {
        match self {
            FileValue::Max => "max".to_owned(),
            FileValue::Number(n) => decimal_text(*n),
        }
    }
}

/// Relies on `u64`'s `Display` (through `to_string`): it writes the number in
/// decimal, without sign or leading zeros.
#[verifier::external_body]
fn decimal_text(n: u64) -> (r: String)
    ensures
        r@ == decimal(n as nat),
{
    n.to_string()
}

/// One write of the plan.
#[derive(Debug, Clone, Copy, PartialEq, Eq, Structural)]
pub struct FileWrite {
    pub file: CgroupFile,
    pub value: FileValue,
}

/// The contents of the cgroup files after the writes `w` were performed in
/// order on files holding `c`: each written file holds its last value.
pub open spec fn contents_after(c: Map<CgroupFile, FileValue>, w: Seq<FileWrite>) -> Map<CgroupFile, FileValue>
    decreases w.len(),
{
    if w.len() == 0 {
        c
    } else {
        contents_after(c, w.drop_last()).insert(w.last().file, w.last().value)
    }
}

/// What the writes leave is what the files held before, overridden by what
/// the writes alone leave.
pub proof fn lemma_contents_after_override(c: Map<CgroupFile, FileValue>, w: Seq<FileWrite>)
    ensures
        contents_after(c, w) == c.union_prefer_right(contents_after(Map::empty(), w)),
    decreases w.len(),
{
    if w.len() == 0 {
        assert(c.union_prefer_right(Map::empty()) =~= c);
    } else {
        lemma_contents_after_override(c, w.drop_last());
        assert(contents_after(c, w) =~= c.union_prefer_right(contents_after(Map::empty(), w)));
    }
}

/// Performing the same writes twice leaves the files as performing them once.
pub proof fn lemma_writes_idempotent(c: Map<CgroupFile, FileValue>, w: Seq<FileWrite>)
    ensures
        contents_after(contents_after(c, w), w) == contents_after(c, w),
{
    let once = contents_after(c, w);
    let own = contents_after(Map::empty(), w);
    lemma_contents_after_override(c, w);
    lemma_contents_after_override(once, w);
    assert(once.union_prefer_right(own) =~= once);
}

/// Writes to perform in order: the kernel checks later writes against
/// earlier ones, so the order is part of the plan.
pub struct WritePlan {
    writes: Vec<FileWrite>,
}

impl WritePlan {
    /// The writes, in order.
    pub closed spec fn view(&self) -> Seq<FileWrite> {
        self.writes@
    }

    /// An empty plan.
    pub fn new() -> (r: WritePlan)
        ensures
            r@ == Seq::<FileWrite>::empty(),
    {
        WritePlan { writes: Vec::new() }
    }

    /// Appends a write.
    pub fn push(&mut self, file: CgroupFile, value: FileValue)
        ensures
            final(self)@ == old(self)@.push(FileWrite { file, value }),
    {
        self.writes.push(FileWrite { file, value });
    }

    /// The writes, in order.
    pub fn writes(&self) -> (r: &[FileWrite])
        ensures
            r@ == self@,
    {
        self.writes.as_slice()
    }
}

} // verus!

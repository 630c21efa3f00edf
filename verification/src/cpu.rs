//! The processor reading that the sampler publishes and every query copies.
//!
//! The load is a single-precision percentage summed over all logical cores.
//! It is carried here as its 32-bit pattern and never interpreted: what is
//! read is, bit for bit, what was published.

use vstd::prelude::*;
use vstd::string::*;

verus! {

/// The bit pattern of a load of zero percent, which a reading holds until the
/// first publication.
pub const INITIAL_USAGE_BITS: u32 = 0;

/// The processor's brand and the latest published total load.
#[derive(Clone, Debug)]
pub struct CpuInfo {
    pub model: String,
    pub usage_bits: u32,
}

/// A [`CpuInfo`] as a mathematical value.
pub ghost struct CpuInfoView {
    pub model: Seq<char>,
    pub usage_bits: u32,
}

impl View for CpuInfo {
    type V = CpuInfoView;

    open spec fn view(&self) -> CpuInfoView {
        CpuInfoView { model: self.model@, usage_bits: self.usage_bits }
    }
}

/// The word `Unknown`, which stands for a name that the host cannot tell.
pub open spec fn unknown_text() -> Seq<char> {
    seq!['U', 'n', 'k', 'n', 'o', 'w', 'n']
}

/// The text of `name`, or [`unknown_text`] where there is none.
pub open spec fn text_or_unknown(name: Option<Seq<char>>) -> Seq<char> {
    match name {
        Some(text) => text,
        None => unknown_text(),
    }
}

/// `name`, or the word `Unknown` where there is none.
pub fn name_or_unknown(name: Option<String>) -> (text: String)
    ensures
        text@ == text_or_unknown(name.deep_view()),
{
    match name {
        Some(text) => text,
        None => {
            proof {
                reveal_strlit("Unknown");
            }
            assert("Unknown"@ =~= unknown_text());
            String::from_str("Unknown")
        },
    }
}

/// One operation on the shared reading, in the order in which the lock
/// around it let the operations through.
pub enum CellOp {
    /// The sampler replaces the load.
    Write(u32),
    /// A query copies the reading.
    Read,
}

/// The reading after one operation.
pub open spec fn apply(cell: CpuInfoView, op: CellOp) -> CpuInfoView {
    match op {
        CellOp::Write(usage_bits) => CpuInfoView { model: cell.model, usage_bits },
        CellOp::Read => cell,
    }
}

/// The reading after `ops`, applied in order to `start`.
pub open spec fn cell_after(start: CpuInfoView, ops: Seq<CellOp>) -> CpuInfoView
    decreases ops.len(),
{
    if ops.len() == 0 {
        start
    } else {
        apply(cell_after(start, ops.drop_last()), ops.last())
    }
}

/// What a read returns that comes after the first `at` operations of `ops`.
pub open spec fn observed(start: CpuInfoView, ops: Seq<CellOp>, at: int) -> CpuInfoView {
    cell_after(start, ops.take(at))
}

/// The position of the last write among the first `at` operations of `ops`,
/// or -1 where there is none.
pub open spec fn last_write(ops: Seq<CellOp>, at: int) -> int
    decreases at,
{
    if at <= 0 {
        -1
    } else if ops[at - 1] is Write {
        at - 1
    } else {
        last_write(ops, at - 1)
    }
}

impl CpuInfo {
    /// The reading at start-up: the brand of the first processor that the
    /// host reports, and no load yet.
    pub fn new(first_brand: Option<String>) -> (cpu: CpuInfo)
        ensures
            cpu@.model == text_or_unknown(first_brand.deep_view()),
            cpu@.usage_bits == INITIAL_USAGE_BITS,
    {
        CpuInfo { model: name_or_unknown(first_brand), usage_bits: INITIAL_USAGE_BITS }
    }

    /// The sampler's write: replaces the load and nothing else.
    pub fn publish(&mut self, usage_bits: u32)
        ensures
            final(self)@ == apply(old(self)@, CellOp::Write(usage_bits)),
    {
        self.usage_bits = usage_bits;
    }

    /// A query's read: a copy of the reading as it stands.
    pub fn snapshot(&self) -> (copy: CpuInfo)
        ensures
            copy@ == self@,
            copy@ == apply(self@, CellOp::Read),
    {
        CpuInfo { model: self.model.clone(), usage_bits: self.usage_bits }
    }
}

/// No operation changes the brand: it is the one the reading started with.
pub proof fn lemma_model_never_changes(start: CpuInfoView, ops: Seq<CellOp>)
    ensures
        cell_after(start, ops).model == start.model,
    decreases ops.len(),
{
    if ops.len() > 0 {
        lemma_model_never_changes(start, ops.drop_last());
    }
}

/// The last write among the first `at` operations is a write, lies before
/// `at`, and no write follows it before `at`.
pub proof fn lemma_last_write_is_last(ops: Seq<CellOp>, at: int)
    requires
        0 <= at <= ops.len(),
    ensures
        -1 <= last_write(ops, at) < at,
        last_write(ops, at) >= 0 ==> ops[last_write(ops, at)] is Write,
        forall|k: int| last_write(ops, at) < k < at ==> ops[k] is Read,
    decreases at,
{
    if at > 0 && !(ops[at - 1] is Write) {
        lemma_last_write_is_last(ops, at - 1);
    }
}

/// A read is never torn: the load it returns is the one that the last write
/// before it stored, whole, or the initial load where nothing was written yet.
pub proof fn lemma_read_returns_last_write(start: CpuInfoView, ops: Seq<CellOp>, at: int)
    requires
        0 <= at <= ops.len(),
    ensures
        last_write(ops, at) < 0 ==> observed(start, ops, at) == start,
        last_write(ops, at) >= 0 ==> ops[last_write(ops, at)] == CellOp::Write(
            observed(start, ops, at).usage_bits,
        ),
        observed(start, ops, at).model == start.model,
    decreases at,
{
    lemma_model_never_changes(start, ops.take(at));
    if at > 0 {
        let before = ops.take(at);
        assert(before.drop_last() =~= ops.take(at - 1));
        assert(before.last() == ops[at - 1]);
        lemma_read_returns_last_write(start, ops, at - 1);
    }
}

/// A read that follows a write, with no other write between the two, returns
/// the load of that write.
pub proof fn lemma_read_after_write(
    start: CpuInfoView,
    ops: Seq<CellOp>,
    written: int,
    at: int,
    usage_bits: u32,
)
    requires
        0 <= written < at <= ops.len(),
        ops[written] == CellOp::Write(usage_bits),
        forall|k: int| written < k < at ==> ops[k] is Read,
    ensures
        observed(start, ops, at).usage_bits == usage_bits,
{
    lemma_last_write_is_last(ops, at);
    lemma_read_returns_last_write(start, ops, at);
    assert(last_write(ops, at) == written);
}

/// Visibility is monotonic: of two reads, the later one returns the load of
/// the same write as the earlier one or of a later write, never of an older
/// one.
pub proof fn lemma_later_reads_see_later_writes(ops: Seq<CellOp>, earlier: int, later: int)
    requires
        0 <= earlier <= later <= ops.len(),
    ensures
        last_write(ops, earlier) <= last_write(ops, later),
    decreases later - earlier,
{
    if earlier < later {
        lemma_later_reads_see_later_writes(ops, earlier, later - 1);
        lemma_last_write_is_last(ops, later - 1);
    }
}

} // verus!

//! From the dirty memory ranges of a paused virtual machine to the segments of
//! a memory image.
use vstd::prelude::*;
use vstd::string::StringExecFns;

use crate::failure;
use crate::failure::Failure;
use crate::text;

verus! {

/// The page size in which dirty memory is reported.
pub const FIRECRACKER_DIRTY_PAGE_SIZE: u64 = 4096;

/// The size of a sector, the unit in which segments count.
pub const OVERLAYBD_ALIGNMENT: u64 = 512;

/// A run of sectors of an image.
#[derive(Debug, Clone, Copy, PartialEq, Eq)]
pub struct Segment {
    pub offset: u64,
    pub length: u32,
}

impl Segment {
    /// The largest number of sectors that one segment holds.
    pub const MAX_LENGTH: u32 = 16383;
}

/// A run of sectors of an image, and where its contents come from.
#[derive(Debug, Clone, Copy, PartialEq, Eq)]
pub struct SegmentMapping {
    pub segment: Segment,
    pub moffset: u64,
    pub zeroed: bool,
    pub tag: u8,
}

impl SegmentMapping {
    pub fn new(offset: u64, length: u32, moffset: u64, zeroed: bool, tag: u8) -> (r: SegmentMapping)
        ensures
            r == (SegmentMapping { segment: Segment { offset, length }, moffset, zeroed, tag }),
    {
        SegmentMapping { segment: Segment { offset, length }, moffset, zeroed, tag }
    }

    pub fn offset(&self) -> (r: u64)
        ensures
            r == self.segment.offset,
    {
        self.segment.offset
    }

    pub fn length(&self) -> (r: u32)
        ensures
            r == self.segment.length,
    {
        self.segment.length
    }

    /// The first sector after the segment.
    pub open spec fn end(self) -> int {
        self.segment.offset + self.segment.length
    }

    /// The segment holds the sector.
    pub open spec fn holds(self, sector: int) -> bool {
        self.segment.offset <= sector < self.end()
    }
}

/// A range of dirty memory: where it lies in the process and in the image.
#[derive(Debug, Clone, Copy, PartialEq, Eq)]
pub struct DirtyMemoryRange {
    pub base_host_virt_addr: i64,
    pub image_offset: i64,
    pub length: i64,
}

/// The dirty memory that a virtual machine reports.
#[derive(Debug, PartialEq, Eq)]
pub struct DirtyMemoryRanges {
    pub page_size: i32,
    pub memory_size: i64,
    pub ranges: Vec<DirtyMemoryRange>,
}

pub open spec fn negative_fault(value: int, field: Seq<char>) -> Option<Seq<char>> {
    failure::fault_if(
        value < 0,
        field + " must be non-negative, got "@ + text::signed_decimal(value),
    )
}

/// The value as an unsigned number, which it must not fall below.
pub fn checked_i64_to_u64(value: i64, field: &str) -> (r: Result<u64, Failure>)
    ensures
        failure::reports(r, negative_fault(value as int, field@)),
        r matches Ok(v) ==> v == value,
{
    if value < 0 {
        let number = text::signed_decimal_of(value);
        Err(Failure::new(text::concat3(field, " must be non-negative, got ", number.as_str())))
    } else {
        Ok(value as u64)
    }
}

/// The text of `what`, a number, and the alignment that it lacks.
pub open spec fn unaligned(what: Seq<char>, number: Seq<char>) -> Seq<char> {
    what + number + " is not 4096-byte aligned"@
}

/// The first thing wrong with the report as a whole.
pub open spec fn header_fault(page_size: int, memory_size: int) -> Option<Seq<char>> {
    failure::earliest(
        failure::fault_if(
            page_size != FIRECRACKER_DIRTY_PAGE_SIZE,
            "dirty memory page_size must be 4096, got "@ + text::signed_decimal(page_size),
        ),
        failure::earliest(
            negative_fault(memory_size, "memory_size"@),
            failure::fault_if(
                memory_size % 4096 != 0,
                unaligned("dirty memory_size "@, text::decimal(memory_size as nat)),
            ),
        ),
    )
}

/// The first thing wrong with one range in an image of the given size.
pub open spec fn range_fault(r: DirtyMemoryRange, memory_size: int) -> Option<Seq<char>> {
    if r.base_host_virt_addr < 0 {
        negative_fault(r.base_host_virt_addr as int, "base_host_virt_addr"@)
    } else if r.image_offset < 0 {
        negative_fault(r.image_offset as int, "image_offset"@)
    } else if r.length < 0 {
        negative_fault(r.length as int, "length"@)
    } else if r.length == 0 {
        Some("dirty memory range length must be positive"@)
    } else if r.base_host_virt_addr as int % 4096 != 0 {
        Some(
            unaligned(
                "dirty range base_host_virt_addr "@,
                text::prefixed_hex(r.base_host_virt_addr as nat),
            ),
        )
    } else if r.image_offset as int % 4096 != 0 {
        Some(unaligned("dirty range image_offset "@, text::decimal(r.image_offset as nat)))
    } else if r.length as int % 4096 != 0 {
        Some(unaligned("dirty range length "@, text::decimal(r.length as nat)))
    } else if r.image_offset + r.length > memory_size {
        Some(
            "dirty range ["@ + text::decimal(r.image_offset as nat) + ", "@ + text::decimal(
                (r.image_offset + r.length) as nat,
            ) + ") exceeds memory_size "@ + text::decimal(memory_size as nat),
        )
    } else {
        None
    }
}

/// The first thing wrong with a list of ranges.
pub open spec fn ranges_fault(rs: Seq<DirtyMemoryRange>, memory_size: int) -> Option<Seq<char>>
    decreases rs.len(),
{
    if rs.len() == 0 {
        None
    } else {
        failure::earliest(
            ranges_fault(rs.drop_last(), memory_size),
            range_fault(rs.last(), memory_size),
        )
    }
}

/// The number of sectors of a range.
pub open spec fn sectors(r: DirtyMemoryRange) -> int {
    r.length as int / 512
}

/// The number of segments that a range of dirty memory takes.
pub open spec fn chunk_count(r: DirtyMemoryRange) -> int {
    (sectors(r) + 16382) / 16383
}

/// The segment number `k` of a range: the range is cut into segments of the
/// largest length, and the last one holds what is left.
pub open spec fn chunk(r: DirtyMemoryRange, k: int) -> SegmentMapping {
    let before = k * 16383;
    let left = sectors(r) - before;
    SegmentMapping {
        segment: Segment {
            offset: (r.image_offset as int / 512 + before) as u64,
            length: (if left < 16383 {
                left
            } else {
                16383
            }) as u32,
        },
        moffset: (r.base_host_virt_addr as int / 512 + before) as u64,
        zeroed: false,
        tag: 0,
    }
}

/// The segments of one range.
pub open spec fn chunks(r: DirtyMemoryRange) -> Seq<SegmentMapping> {
    Seq::new(chunk_count(r) as nat, |k: int| chunk(r, k))
}

/// The segments of a list of ranges, in the order of the ranges.
pub open spec fn all_chunks(rs: Seq<DirtyMemoryRange>) -> Seq<SegmentMapping>
    decreases rs.len(),
{
    if rs.len() == 0 {
        Seq::empty()
    } else {
        all_chunks(rs.drop_last()) + chunks(rs.last())
    }
}

/// Two segments have no sector in common.
pub open spec fn disjoint(a: SegmentMapping, b: SegmentMapping) -> bool {
    a.end() <= b.segment.offset || b.end() <= a.segment.offset
}

/// No two of the segments have a sector in common.
pub open spec fn all_disjoint(s: Seq<SegmentMapping>) -> bool {
    forall|i: int, j: int| 0 <= i < j < s.len() ==> disjoint(#[trigger] s[i], #[trigger] s[j])
}

pub open spec fn sorted_by_offset(s: Seq<SegmentMapping>) -> bool {
    forall|i: int, j: int|
        0 <= i <= j < s.len() ==> (#[trigger] s[i]).segment.offset <= (
        #[trigger] s[j]).segment.offset
}

/// `s` holds the segments `of`, sorted by their place in the image.
pub open spec fn arrangement(s: Seq<SegmentMapping>, of: Seq<SegmentMapping>) -> bool {
    s.to_multiset() == of.to_multiset() && sorted_by_offset(s)
}

/// Of sorted segments, the one at `i` reaches into the one after it, and none up to
/// it reaches into another.
pub open spec fn first_overlap(s: Seq<SegmentMapping>, i: int) -> bool {
    &&& 0 <= i < s.len() - 1
    &&& s[i].end() > s[i + 1].segment.offset
    &&& forall|a: int, b: int|
        0 <= a < b <= i ==> (#[trigger] s[a]).end() <= (#[trigger] s[b]).segment.offset
}

pub open spec fn overlap_message(a: SegmentMapping, b: SegmentMapping) -> Seq<char> {
    "overlapping dirty memory destination ranges detected at image sectors "@ + text::decimal(
        a.segment.offset as nat,
    ) + " and "@ + text::decimal(b.segment.offset as nat)
}

/// Sorts segments by their place in the image.
///
/// `slice::sort_unstable_by_key` of the standard library, with the offset as
/// the key: afterwards the slice holds the same elements as before, ordered by
/// the key. The order of segments with equal offsets is left open.
#[verifier::external_body]
fn sort_by_offset(v: &mut Vec<SegmentMapping>)
    ensures
        final(v)@.to_multiset() == old(v)@.to_multiset(),
        sorted_by_offset(final(v)@),
{
    v.sort_unstable_by_key(|m| m.segment.offset);
}

proof fn lemma_ranges_fault_prefix(rs: Seq<DirtyMemoryRange>, memory_size: int, n: int)
    requires
        0 <= n <= rs.len(),
        ranges_fault(rs.take(n), memory_size) is Some,
    ensures
        ranges_fault(rs, memory_size) == ranges_fault(rs.take(n), memory_size),
    decreases rs.len(),
{
    if n == rs.len() {
        assert(rs.take(n) =~= rs);
    } else {
        assert(rs.drop_last().take(n) =~= rs.take(n));
        lemma_ranges_fault_prefix(rs.drop_last(), memory_size, n);
    }
}

fn failure_unaligned(what: &str, number: &str) -> (r: Failure)
    ensures
        r.message@ == unaligned(what@, number@),
{
    Failure::new(text::concat3(what, number, " is not 4096-byte aligned"))
}

/// Checks one range and gives its parts as unsigned numbers.
fn check_range(range: &DirtyMemoryRange, memory_size: u64) -> (r: Result<
    (u64, u64, u64),
    Failure,
>)
    ensures
        failure::reports(r, range_fault(*range, memory_size as int)),
        r matches Ok((addr, offset, length)) ==> addr == range.base_host_virt_addr && offset
            == range.image_offset && length == range.length,
{
    let addr: u64 = match checked_i64_to_u64(range.base_host_virt_addr, "base_host_virt_addr") {
        Ok(v) => v,
        Err(e) => {
            return Err(e);
        },
    };
    let offset: u64 = match checked_i64_to_u64(range.image_offset, "image_offset") {
        Ok(v) => v,
        Err(e) => {
            return Err(e);
        },
    };
    let length: u64 = match checked_i64_to_u64(range.length, "length") {
        Ok(v) => v,
        Err(e) => {
            return Err(e);
        },
    };
    if length == 0 {
        return Err(Failure::because("dirty memory range length must be positive"));
    }
    if addr % FIRECRACKER_DIRTY_PAGE_SIZE != 0 {
        let number = text::prefixed_hex_of(addr);
        return Err(failure_unaligned("dirty range base_host_virt_addr ", number.as_str()));
    }
    if offset % FIRECRACKER_DIRTY_PAGE_SIZE != 0 {
        let number = text::decimal_of(offset);
        return Err(failure_unaligned("dirty range image_offset ", number.as_str()));
    }
    if length % FIRECRACKER_DIRTY_PAGE_SIZE != 0 {
        let number = text::decimal_of(length);
        return Err(failure_unaligned("dirty range length ", number.as_str()));
    }
    if offset + length > memory_size {
        let mut message = text::concat3(
            "dirty range [",
            text::decimal_of(offset).as_str(),
            ", ",
        );
        message.append(text::decimal_of(offset + length).as_str());
        message.append(") exceeds memory_size ");
        message.append(text::decimal_of(memory_size).as_str());
        return Err(Failure::new(message));
    }
    Ok((addr, offset, length))
}

/// Appends the segments of one range.
fn push_chunks(range: &DirtyMemoryRange, mappings: &mut Vec<SegmentMapping>)
    requires
        range.base_host_virt_addr >= 0,
        range.image_offset >= 0,
        range.length > 0,
        range.base_host_virt_addr as int % 4096 == 0,
        range.image_offset as int % 4096 == 0,
        range.length as int % 4096 == 0,
        range.image_offset + range.length <= i64::MAX,
    ensures
        final(mappings)@ == old(mappings)@ + chunks(*range),
{
    let mut base_host_virt_addr: u64 = range.base_host_virt_addr as u64;
    let mut image_offset: u64 = range.image_offset as u64;
    let mut remaining_sectors: u64 = range.length as u64 / OVERLAYBD_ALIGNMENT;
    let ghost before = mappings@;
    let ghost mut k: int = 0;
    let ghost mut done: int = 0;
    assert(chunks(*range).take(0) =~= Seq::empty());
    while remaining_sectors > 0
        invariant
            range.base_host_virt_addr >= 0,
            range.image_offset >= 0,
            range.length > 0,
            range.base_host_virt_addr as int % 4096 == 0,
            range.image_offset as int % 4096 == 0,
            range.length as int % 4096 == 0,
            range.image_offset + range.length <= i64::MAX,
            0 <= done <= sectors(*range),
            remaining_sectors == sectors(*range) - done,
            image_offset == range.image_offset + done * 512,
            base_host_virt_addr == range.base_host_virt_addr + done * 512,
            0 <= k <= chunk_count(*range),
            remaining_sectors > 0 ==> done == k * 16383,
            remaining_sectors == 0 ==> k == chunk_count(*range),
            mappings@ == before + chunks(*range).take(k),
        decreases remaining_sectors,
    {
        let sector_count: u64 = if remaining_sectors < Segment::MAX_LENGTH as u64 {
            remaining_sectors
        } else {
            Segment::MAX_LENGTH as u64
        };
        let mapping = SegmentMapping::new(
            image_offset / OVERLAYBD_ALIGNMENT,
            sector_count as u32,
            base_host_virt_addr / OVERLAYBD_ALIGNMENT,
            false,
            0,
        );
        mappings.push(mapping);
        assert(k < chunk_count(*range));
        assert(mapping == chunk(*range, k));
        assert(chunks(*range).take(k + 1) =~= chunks(*range).take(k).push(mapping));
        let bytes: u64 = sector_count * OVERLAYBD_ALIGNMENT;
        base_host_virt_addr = base_host_virt_addr + bytes;
        image_offset = image_offset + bytes;
        remaining_sectors = remaining_sectors - sector_count;
        proof {
            k = k + 1;
            done = done + sector_count;
        }
        assert(mappings@ =~= before + chunks(*range).take(k));
    }
    assert(chunks(*range).take(k) =~= chunks(*range));
}

pub open spec fn all_nonempty(s: Seq<SegmentMapping>) -> bool {
    forall|i: int| 0 <= i < s.len() ==> (#[trigger] s[i]).segment.length > 0
}

/// Rearranging segments that are pairwise disjoint keeps them so.
proof fn lemma_disjoint_in_any_order(s: Seq<SegmentMapping>, t: Seq<SegmentMapping>)
    requires
        s.to_multiset() == t.to_multiset(),
        all_nonempty(s),
        all_disjoint(s),
    ensures
        all_disjoint(t),
{
    assert(s.no_duplicates()) by {
        assert forall|i: int, j: int| 0 <= i < s.len() && 0 <= j < s.len() && i != j implies s[i]
            != s[j] by {
            if i < j {
                assert(disjoint(s[i], s[j]));
            } else {
                assert(disjoint(s[j], s[i]));
            }
        }
    }
    s.lemma_multiset_has_no_duplicates();
    t.lemma_multiset_has_no_duplicates_conv();
    s.to_multiset_ensures();
    t.to_multiset_ensures();
    assert forall|i: int, j: int| 0 <= i < j < t.len() implies disjoint(
        #[trigger] t[i],
        #[trigger] t[j],
    ) by {
        assert(t.contains(t[i]));
        assert(t.contains(t[j]));
        assert(t.to_multiset().count(t[i]) > 0);
        assert(t.to_multiset().count(t[j]) > 0);
        assert(s.contains(t[i]));
        assert(s.contains(t[j]));
        let a = choose|a: int| 0 <= a < s.len() && s[a] == t[i];
        let b = choose|b: int| 0 <= b < s.len() && s[b] == t[j];
        assert(t[i] != t[j]);
        if a < b {
            assert(disjoint(s[a], s[b]));
        } else {
            assert(disjoint(s[b], s[a]));
        }
    }
}

proof fn lemma_elements_nonempty(s: Seq<SegmentMapping>, t: Seq<SegmentMapping>)
    requires
        s.to_multiset() == t.to_multiset(),
        all_nonempty(s),
    ensures
        all_nonempty(t),
{
    s.to_multiset_ensures();
    t.to_multiset_ensures();
    assert forall|i: int| 0 <= i < t.len() implies (#[trigger] t[i]).segment.length > 0 by {
        assert(t.contains(t[i]));
        assert(t.to_multiset().count(t[i]) > 0);
        assert(s.contains(t[i]));
        let a = choose|a: int| 0 <= a < s.len() && s[a] == t[i];
        assert(s[a].segment.length > 0);
    }
}

/// A range that has passed its checks.
pub open spec fn good_range(r: DirtyMemoryRange, memory_size: int) -> bool {
    range_fault(r, memory_size) is None
}

pub(crate) proof fn lemma_chunk_facts(r: DirtyMemoryRange, memory_size: int, k: int)
    requires
        good_range(r, memory_size),
        0 <= memory_size <= i64::MAX,
        0 <= k < chunk_count(r),
    ensures
        chunk(r, k).segment.offset == r.image_offset as int / 512 + k * 16383,
        chunk(r, k).moffset == r.base_host_virt_addr as int / 512 + k * 16383,
        0 < chunk(r, k).segment.length <= 16383,
        k < chunk_count(r) - 1 ==> chunk(r, k).segment.length == 16383,
        chunk(r, k).end() <= r.image_offset as int / 512 + sectors(r),
        k == chunk_count(r) - 1 ==> chunk(r, k).end() == r.image_offset as int / 512 + sectors(r),
{
}

proof fn lemma_all_chunks(rs: Seq<DirtyMemoryRange>, memory_size: int, m: SegmentMapping)
    requires
        ranges_fault(rs, memory_size) is None,
        0 <= memory_size <= i64::MAX,
        all_chunks(rs).contains(m),
    ensures
        exists|n: int, k: int|
            0 <= n < rs.len() && 0 <= k < chunk_count(#[trigger] rs[n]) && m == #[trigger] chunk(
                rs[n],
                k,
            ),
    decreases rs.len(),
{
    let i = choose|i: int| 0 <= i < all_chunks(rs).len() && all_chunks(rs)[i] == m;
    let before = all_chunks(rs.drop_last());
    if i < before.len() {
        assert(before[i] == m);
        assert(before.contains(m));
        lemma_all_chunks(rs.drop_last(), memory_size, m);
        let (n, k) = choose|n: int, k: int|
            0 <= n < rs.drop_last().len() && 0 <= k < chunk_count(#[trigger] rs.drop_last()[n])
                && m == #[trigger] chunk(rs.drop_last()[n], k);
        assert(rs.drop_last()[n] == rs[n]);
        assert(m == chunk(rs[n], k));
    } else {
        let k = i - before.len();
        assert(chunks(rs.last())[k] == m);
        assert(rs[rs.len() - 1] == rs.last());
        assert(m == chunk(rs[rs.len() - 1], k));
    }
}

pub(crate) proof fn lemma_good_ranges(rs: Seq<DirtyMemoryRange>, memory_size: int, n: int)
    requires
        ranges_fault(rs, memory_size) is None,
        0 <= n < rs.len(),
    ensures
        good_range(rs[n], memory_size),
    decreases rs.len(),
{
    if n < rs.len() - 1 {
        lemma_good_ranges(rs.drop_last(), memory_size, n);
    }
}

proof fn lemma_chunks_nonempty(rs: Seq<DirtyMemoryRange>, memory_size: int)
    requires
        ranges_fault(rs, memory_size) is None,
        0 <= memory_size <= i64::MAX,
    ensures
        all_nonempty(all_chunks(rs)),
{
    assert forall|i: int| 0 <= i < all_chunks(rs).len() implies (
    #[trigger] all_chunks(rs)[i]).segment.length > 0 by {
        let m = all_chunks(rs)[i];
        assert(all_chunks(rs).contains(m));
        lemma_all_chunks(rs, memory_size, m);
        let (n, k) = choose|n: int, k: int|
            0 <= n < rs.len() && 0 <= k < chunk_count(#[trigger] rs[n]) && m == #[trigger] chunk(
                rs[n],
                k,
            );
        lemma_good_ranges(rs, memory_size, n);
        lemma_chunk_facts(rs[n], memory_size, k);
    }
}

/// What is wrong with the report before overlaps are looked at.
pub open spec fn report_fault(d: DirtyMemoryRanges) -> Option<Seq<char>> {
    failure::earliest(
        header_fault(d.page_size as int, d.memory_size as int),
        ranges_fault(d.ranges@, d.memory_size as int),
    )
}

/// The segments are those of the report's ranges, in the order of the image, and
/// have no sector in common.
pub open spec fn segments_of(
    d: DirtyMemoryRanges,
    mappings: Seq<SegmentMapping>,
    memory_size: u64,
) -> bool {
    &&& memory_size == d.memory_size
    &&& arrangement(mappings, all_chunks(d.ranges@))
    &&& forall|i: int, j: int|
        0 <= i < j < mappings.len() ==> (#[trigger] mappings[i]).end() <= (
        #[trigger] mappings[j]).segment.offset
}

/// The message names the first two segments, in the order of the image, that
/// overlap.
pub open spec fn overlap_reported(d: DirtyMemoryRanges, message: Seq<char>) -> bool {
    exists|s: Seq<SegmentMapping>, i: int|
        arrangement(s, all_chunks(d.ranges@)) && #[trigger] first_overlap(s, i) && message
            == overlap_message(s[i], s[i + 1])
}

/// Turns dirty memory ranges into the segments of a memory image, sorted by
/// their place in the image. Ranges that overlap in the image are refused;
/// overlapping source addresses are not.
pub fn dirty_ranges_to_segment_mappings(dirty_ranges: &DirtyMemoryRanges) -> (r: Result<
    (Vec<SegmentMapping>, u64),
    Failure,
>)
    ensures
        report_fault(*dirty_ranges) is Some ==> failure::reports(r, report_fault(*dirty_ranges)),
        report_fault(*dirty_ranges) is None ==> (r is Ok <==> all_disjoint(
            all_chunks(dirty_ranges.ranges@),
        )),
        r matches Ok((mappings, memory_size)) ==> segments_of(
            *dirty_ranges,
            mappings@,
            memory_size,
        ),
        report_fault(*dirty_ranges) is None && r is Err ==> overlap_reported(
            *dirty_ranges,
            r->Err_0.message@,
        ),
{
    if dirty_ranges.page_size != FIRECRACKER_DIRTY_PAGE_SIZE as i32 {
        let number = text::signed_decimal_of(dirty_ranges.page_size as i64);
        return Err(
            Failure::new(
                text::concat("dirty memory page_size must be 4096, got ", number.as_str()),
            ),
        );
    }
    let memory_size: u64 = match checked_i64_to_u64(dirty_ranges.memory_size, "memory_size") {
        Ok(v) => v,
        Err(e) => {
            return Err(e);
        },
    };
    if memory_size % FIRECRACKER_DIRTY_PAGE_SIZE != 0 {
        let number = text::decimal_of(memory_size);
        return Err(failure_unaligned("dirty memory_size ", number.as_str()));
    }
    let ghost rs = dirty_ranges.ranges@;
    let mut mappings: Vec<SegmentMapping> = Vec::new();
    let mut n: usize = 0;
    assert(rs.take(0) =~= Seq::empty());
    assert(mappings@ =~= all_chunks(rs.take(0)));
    while n < dirty_ranges.ranges.len()
        invariant
            n <= rs.len(),
            rs == dirty_ranges.ranges@,
            memory_size == dirty_ranges.memory_size,
            header_fault(dirty_ranges.page_size as int, dirty_ranges.memory_size as int) is None,
            ranges_fault(rs.take(n as int), memory_size as int) is None,
            mappings@ == all_chunks(rs.take(n as int)),
        decreases rs.len() - n,
    {
        let range = &dirty_ranges.ranges[n];
        assert(rs.take(n + 1).drop_last() =~= rs.take(n as int));
        assert(rs.take(n + 1).last() == range);
        match check_range(range, memory_size) {
            Err(e) => {
                proof {
                    lemma_ranges_fault_prefix(rs, memory_size as int, n + 1);
                }
                return Err(e);
            },
            Ok(_) => {},
        }
        push_chunks(range, &mut mappings);
        n += 1;
    }
    assert(rs.take(rs.len() as int) =~= rs);
    let ghost unsorted = mappings@;
    proof {
        lemma_chunks_nonempty(rs, memory_size as int);
    }
    sort_by_offset(&mut mappings);
    proof {
        lemma_elements_nonempty(unsorted, mappings@);
        unsorted.to_multiset_ensures();
        mappings@.to_multiset_ensures();
    }
    if mappings.len() == 0 {
        assert(unsorted.len() == 0);
        return Ok((mappings, memory_size));
    }
    let mut i: usize = 0;
    while i < mappings.len() - 1
        invariant
            i < mappings@.len(),
            sorted_by_offset(mappings@),
            all_nonempty(mappings@),
            all_nonempty(unsorted),
            unsorted == all_chunks(rs),
            rs == dirty_ranges.ranges@,
            report_fault(*dirty_ranges) is None,
            arrangement(mappings@, unsorted),
            forall|a: int, b: int|
                0 <= a < b <= i ==> (#[trigger] mappings@[a]).end() <= (
                #[trigger] mappings@[b]).segment.offset,
        decreases mappings.len() - i,
    {
        let previous = &mappings[i];
        let next = &mappings[i + 1];
        let gap: u64 = next.offset() - previous.offset();
        if (previous.length() as u64) > gap {
            proof {
                if all_disjoint(unsorted) {
                    lemma_disjoint_in_any_order(unsorted, mappings@);
                    assert(disjoint(mappings@[i as int], mappings@[i + 1]));
                    assert(false);
                }
                assert(first_overlap(mappings@, i as int));
            }
            let mut message = text::concat3(
                "overlapping dirty memory destination ranges detected at image sectors ",
                text::decimal_of(previous.offset()).as_str(),
                " and ",
            );
            message.append(text::decimal_of(next.offset()).as_str());
            assert(message@ =~= overlap_message(mappings@[i as int], mappings@[i + 1]));
            return Err(Failure::new(message));
        }
        assert forall|a: int, b: int| 0 <= a < b <= i + 1 implies (#[trigger] mappings@[a]).end()
            <= (#[trigger] mappings@[b]).segment.offset by {
            if b == i + 1 && a < i {
                assert(mappings@[a].end() <= mappings@[i as int].segment.offset);
            }
        }
        i += 1;
    }
    proof {
        assert(all_disjoint(mappings@));
        lemma_disjoint_in_any_order(mappings@, unsorted);
    }
    Ok((mappings, memory_size))
}

/// The numbers of a range that has passed its checks.
spec fn sound_range(r: DirtyMemoryRange) -> bool {
    &&& r.base_host_virt_addr >= 0
    &&& r.image_offset >= 0
    &&& r.length > 0
    &&& r.base_host_virt_addr as int % 4096 == 0
    &&& r.image_offset as int % 4096 == 0
    &&& r.length as int % 4096 == 0
    &&& r.image_offset + r.length <= i64::MAX
}

proof fn lemma_sound_chunk(r: DirtyMemoryRange, k: int)
    requires
        sound_range(r),
        0 <= k < chunks(r).len(),
    ensures
        chunks(r)[k].segment.offset == r.image_offset as int / 512 + k * 16383,
        chunks(r)[k].moffset == r.base_host_virt_addr as int / 512 + k * 16383,
        0 < chunks(r)[k].segment.length <= 16383,
        !chunks(r)[k].zeroed,
        k < chunks(r).len() - 1 ==> chunks(r)[k].segment.length == 16383,
        chunks(r)[k].end() <= r.image_offset as int / 512 + sectors(r),
        k == chunks(r).len() - 1 ==> chunks(r)[k].end() == r.image_offset as int / 512 + sectors(r),
        chunks(r)[k].moffset - chunks(r)[k].segment.offset == (r.base_host_virt_addr
            - r.image_offset) / 512,
{
    assert(chunks(r)[k] == chunk(r, k));
}

proof fn lemma_sound_range_covered(r: DirtyMemoryRange, sector: int)
    requires
        sound_range(r),
        r.image_offset as int / 512 <= sector < r.image_offset as int / 512 + sectors(r),
    ensures
        exists|k: int| 0 <= k < chunks(r).len() && (#[trigger] chunks(r)[k]).holds(sector),
{
    let first = r.image_offset as int / 512;
    let k = (sector - first) / 16383;
    assert(k * 16383 <= sector - first < (k + 1) * 16383);
    assert(0 <= k < chunk_count(r));
    lemma_sound_chunk(r, k);
    assert(chunks(r)[k].holds(sector));
}

proof fn lemma_sectors_of_bytes(r: DirtyMemoryRange, sector: int)
    requires
        sound_range(r),
    ensures
        (r.image_offset as int <= sector * 512 < r.image_offset + r.length) <==> (
        r.image_offset as int / 512 <= sector < r.image_offset as int / 512 + sectors(r)),
{
}

proof fn lemma_good_is_sound(r: DirtyMemoryRange, memory_size: int)
    requires
        good_range(r, memory_size),
        0 <= memory_size <= i64::MAX,
    ensures
        sound_range(r),
        r.image_offset + r.length <= memory_size,
{
}

/// Each sector of a range lies in exactly one of its segments, and the segment
/// takes it from the matching place of the process; a segment holds no sector
/// of another place.
pub proof fn range_is_covered_once(r: DirtyMemoryRange, memory_size: int, sector: int)
    requires
        good_range(r, memory_size),
        0 <= memory_size <= i64::MAX,
    ensures
        (r.image_offset as int <= sector * 512 < r.image_offset + r.length) <==> (exists|k: int|
            0 <= k < chunks(r).len() && (#[trigger] chunks(r)[k]).holds(sector)),
        forall|k: int|
            0 <= k < chunks(r).len() ==> (#[trigger] chunks(r)[k]).moffset
                - chunks(r)[k].segment.offset == (r.base_host_virt_addr - r.image_offset) / 512
                && 0 < chunks(r)[k].segment.length <= Segment::MAX_LENGTH && !chunks(r)[k].zeroed,
        all_disjoint(chunks(r)),
{
    lemma_good_is_sound(r, memory_size);
    lemma_range_covered_once(r, sector);
}

proof fn lemma_range_covered_once(r: DirtyMemoryRange, sector: int)
    requires
        sound_range(r),
    ensures
        (r.image_offset as int <= sector * 512 < r.image_offset + r.length) <==> (exists|k: int|
            0 <= k < chunks(r).len() && (#[trigger] chunks(r)[k]).holds(sector)),
        forall|k: int|
            0 <= k < chunks(r).len() ==> (#[trigger] chunks(r)[k]).moffset
                - chunks(r)[k].segment.offset == (r.base_host_virt_addr - r.image_offset) / 512
                && 0 < chunks(r)[k].segment.length <= Segment::MAX_LENGTH && !chunks(r)[k].zeroed,
        all_disjoint(chunks(r)),
{
    assert forall|k: int| 0 <= k < chunks(r).len() implies (#[trigger] chunks(r)[k]).moffset
        - chunks(r)[k].segment.offset == (r.base_host_virt_addr - r.image_offset) / 512 && 0
        < chunks(r)[k].segment.length <= Segment::MAX_LENGTH && !chunks(r)[k].zeroed by {
        lemma_sound_chunk(r, k);
    }
    assert forall|i: int, j: int| 0 <= i < j < chunks(r).len() implies disjoint(
        #[trigger] chunks(r)[i],
        #[trigger] chunks(r)[j],
    ) by {
        lemma_sound_chunk(r, i);
        lemma_sound_chunk(r, j);
    }
    lemma_sectors_of_bytes(r, sector);
    if r.image_offset as int / 512 <= sector < r.image_offset as int / 512 + sectors(r) {
        lemma_sound_range_covered(r, sector);
    }
    assert forall|k: int| 0 <= k < chunks(r).len() && (#[trigger] chunks(r)[k]).holds(
        sector,
    ) implies r.image_offset as int / 512 <= sector < r.image_offset as int / 512 + sectors(r) by {
        lemma_sound_chunk(r, k);
    }
}

/// Two ranges have no byte of the image in common.
pub open spec fn ranges_apart(a: DirtyMemoryRange, b: DirtyMemoryRange) -> bool {
    a.image_offset + a.length <= b.image_offset || b.image_offset + b.length <= a.image_offset
}

/// The first sector of a range in the image.
spec fn first_sector(r: DirtyMemoryRange) -> int {
    r.image_offset as int / 512
}

proof fn lemma_whole_sectors(r: DirtyMemoryRange)
    requires
        sound_range(r),
    ensures
        r.image_offset == first_sector(r) * 512,
        r.length == sectors(r) * 512,
        sectors(r) > 0,
{
}

proof fn lemma_apart_in_sectors(a: DirtyMemoryRange, b: DirtyMemoryRange)
    requires
        sound_range(a),
        sound_range(b),
    ensures
        ranges_apart(a, b) <==> first_sector(a) + sectors(a) <= first_sector(b) || first_sector(b)
            + sectors(b) <= first_sector(a),
{
    lemma_whole_sectors(a);
    lemma_whole_sectors(b);
}

proof fn lemma_apart_chunks(a: DirtyMemoryRange, b: DirtyMemoryRange, i: int, j: int)
    requires
        sound_range(a),
        sound_range(b),
        ranges_apart(a, b),
        0 <= i < chunks(a).len(),
        0 <= j < chunks(b).len(),
    ensures
        disjoint(chunks(a)[i], chunks(b)[j]),
{
    lemma_apart_in_sectors(a, b);
    lemma_sound_chunk(a, i);
    lemma_sound_chunk(b, j);
}

proof fn lemma_shared_sector(a: DirtyMemoryRange, b: DirtyMemoryRange) -> (ij: (int, int))
    requires
        sound_range(a),
        sound_range(b),
        !ranges_apart(a, b),
    ensures
        0 <= ij.0 < chunks(a).len(),
        0 <= ij.1 < chunks(b).len(),
        !disjoint(chunks(a)[ij.0], chunks(b)[ij.1]),
{
    lemma_apart_in_sectors(a, b);
    lemma_whole_sectors(a);
    lemma_whole_sectors(b);
    let sector = if first_sector(a) < first_sector(b) {
        first_sector(b)
    } else {
        first_sector(a)
    };
    lemma_sound_range_covered(a, sector);
    lemma_sound_range_covered(b, sector);
    let i = choose|k: int| 0 <= k < chunks(a).len() && (#[trigger] chunks(a)[k]).holds(sector);
    let j = choose|k: int| 0 <= k < chunks(b).len() && (#[trigger] chunks(b)[k]).holds(sector);
    (i, j)
}

/// The place of the segments of range `n` among the segments of all ranges.
proof fn lemma_chunks_within(rs: Seq<DirtyMemoryRange>, n: int) -> (at: int)
    requires
        0 <= n < rs.len(),
    ensures
        at == all_chunks(rs.take(n)).len(),
        0 <= at <= at + chunks(rs[n]).len() <= all_chunks(rs).len(),
        forall|k: int|
            0 <= k < chunks(rs[n]).len() ==> #[trigger] chunks(rs[n])[k] == all_chunks(rs)[at + k],
    decreases rs.len(),
{
    let init = rs.drop_last();
    if n < rs.len() - 1 {
        let at = lemma_chunks_within(init, n);
        assert(init.take(n) =~= rs.take(n));
        assert(init[n] == rs[n]);
        assert forall|k: int| 0 <= k < chunks(rs[n]).len() implies #[trigger] chunks(rs[n])[k]
            == all_chunks(rs)[at + k] by {
            assert(chunks(init[n])[k] == all_chunks(init)[at + k]);
        }
        at
    } else {
        assert(rs.take(n) =~= init);
        let at = all_chunks(init).len() as int;
        assert forall|k: int| 0 <= k < chunks(rs[n]).len() implies #[trigger] chunks(rs[n])[k]
            == all_chunks(rs)[at + k] by {}
        at
    }
}

proof fn lemma_chunks_monotone(rs: Seq<DirtyMemoryRange>, a: int, b: int)
    requires
        0 <= a <= b <= rs.len(),
    ensures
        all_chunks(rs.take(a)).len() <= all_chunks(rs.take(b)).len(),
    decreases b - a,
{
    if a < b {
        lemma_chunks_monotone(rs, a, b - 1);
        assert(rs.take(b).drop_last() =~= rs.take(b - 1));
    }
}

/// No two of the ranges have a byte of the image in common.
pub open spec fn all_apart(rs: Seq<DirtyMemoryRange>) -> bool {
    forall|a: int, b: int|
        0 <= a < b < rs.len() ==> ranges_apart(#[trigger] rs[a], #[trigger] rs[b])
}

/// Segments of an earlier range and of the last are disjoint where the ranges are
/// apart.
proof fn lemma_apart_from_the_last(
    rs: Seq<DirtyMemoryRange>,
    memory_size: int,
    m: SegmentMapping,
    k: int,
)
    requires
        ranges_fault(rs, memory_size) is None,
        0 <= memory_size <= i64::MAX,
        all_apart(rs),
        rs.len() > 0,
        all_chunks(rs.drop_last()).contains(m),
        0 <= k < chunks(rs.last()).len(),
    ensures
        disjoint(m, chunks(rs.last())[k]),
{
    let init = rs.drop_last();
    lemma_all_chunks(init, memory_size, m);
    let (n, i) = choose|n: int, i: int|
        0 <= n < init.len() && 0 <= i < chunk_count(#[trigger] init[n]) && m == #[trigger] chunk(
            init[n],
            i,
        );
    lemma_good_ranges(rs, memory_size, n);
    lemma_good_is_sound(rs[n], memory_size);
    lemma_good_ranges(rs, memory_size, rs.len() - 1);
    lemma_good_is_sound(rs.last(), memory_size);
    assert(ranges_apart(rs[n], rs[rs.len() - 1]));
    assert(chunks(rs[n])[i] == m);
    lemma_apart_chunks(rs[n], rs.last(), i, k);
}

proof fn lemma_apart_ranges_have_disjoint_segments(rs: Seq<DirtyMemoryRange>, memory_size: int)
    requires
        ranges_fault(rs, memory_size) is None,
        0 <= memory_size <= i64::MAX,
        all_apart(rs),
    ensures
        all_disjoint(all_chunks(rs)),
    decreases rs.len(),
{
    if rs.len() > 0 {
        let init = rs.drop_last();
        let last = rs.last();
        let old = all_chunks(init);
        let all = all_chunks(rs);
        assert forall|a: int, b: int| 0 <= a < b < init.len() implies ranges_apart(
            #[trigger] init[a],
            #[trigger] init[b],
        ) by {
            assert(ranges_apart(rs[a], rs[b]));
        }
        lemma_apart_ranges_have_disjoint_segments(init, memory_size);
        lemma_good_ranges(rs, memory_size, rs.len() - 1);
        lemma_good_is_sound(last, memory_size);
        lemma_range_covered_once(last, 0);
        assert forall|i: int, j: int| 0 <= i < j < all.len() implies disjoint(
            #[trigger] all[i],
            #[trigger] all[j],
        ) by {
            if j < old.len() {
                assert(disjoint(old[i], old[j]));
            } else if i >= old.len() {
                assert(disjoint(chunks(last)[i - old.len()], chunks(last)[j - old.len()]));
            } else {
                assert(old.contains(old[i]));
                lemma_apart_from_the_last(rs, memory_size, old[i], j - old.len());
            }
        }
    }
}

/// A range of disjoint segments is apart from the last.
proof fn lemma_disjoint_from_the_last(rs: Seq<DirtyMemoryRange>, memory_size: int, a: int)
    requires
        ranges_fault(rs, memory_size) is None,
        0 <= memory_size <= i64::MAX,
        all_disjoint(all_chunks(rs)),
        0 <= a < rs.len() - 1,
    ensures
        ranges_apart(rs[a], rs.last()),
{
    let init = rs.drop_last();
    let last = rs.last();
    let all = all_chunks(rs);
    lemma_good_ranges(rs, memory_size, a);
    lemma_good_is_sound(rs[a], memory_size);
    lemma_good_ranges(rs, memory_size, rs.len() - 1);
    lemma_good_is_sound(last, memory_size);
    if !ranges_apart(rs[a], last) {
        let at = lemma_chunks_within(rs, a);
        lemma_chunks_monotone(rs, a + 1, rs.len() - 1);
        assert(rs.take(a + 1).drop_last() =~= rs.take(a));
        assert(rs.take(rs.len() - 1) =~= init);
        let (i, j) = lemma_shared_sector(rs[a], last);
        assert(chunks(rs[a])[i] == all[at + i]);
        assert(disjoint(all[at + i], all[all_chunks(init).len() + j]));
    }
}

proof fn lemma_disjoint_segments_come_from_apart_ranges(
    rs: Seq<DirtyMemoryRange>,
    memory_size: int,
)
    requires
        ranges_fault(rs, memory_size) is None,
        0 <= memory_size <= i64::MAX,
        all_disjoint(all_chunks(rs)),
    ensures
        all_apart(rs),
    decreases rs.len(),
{
    if rs.len() > 0 {
        let init = rs.drop_last();
        let old = all_chunks(init);
        let all = all_chunks(rs);
        assert forall|i: int, j: int| 0 <= i < j < old.len() implies disjoint(
            #[trigger] old[i],
            #[trigger] old[j],
        ) by {
            assert(disjoint(all[i], all[j]));
        }
        lemma_disjoint_segments_come_from_apart_ranges(init, memory_size);
        assert forall|a: int, b: int| 0 <= a < b < rs.len() implies ranges_apart(
            #[trigger] rs[a],
            #[trigger] rs[b],
        ) by {
            if b < init.len() {
                assert(ranges_apart(init[a], init[b]));
            } else {
                lemma_disjoint_from_the_last(rs, memory_size, a);
            }
        }
    }
}

/// A report is refused for overlaps exactly where two of its ranges have a
/// byte of the image in common.
pub proof fn overlap_is_a_shared_byte(rs: Seq<DirtyMemoryRange>, memory_size: int)
    requires
        ranges_fault(rs, memory_size) is None,
        0 <= memory_size <= i64::MAX,
    ensures
        all_disjoint(all_chunks(rs)) <==> all_apart(rs),
{
    if all_apart(rs) {
        lemma_apart_ranges_have_disjoint_segments(rs, memory_size);
    }
    if all_disjoint(all_chunks(rs)) {
        lemma_disjoint_segments_come_from_apart_ranges(rs, memory_size);
    }
}

/// The range holds this sector of the image.
pub open spec fn covers(r: DirtyMemoryRange, sector: int) -> bool {
    r.image_offset as int <= sector * 512 < r.image_offset + r.length
}

/// The segment takes this sector of the image from where the range has it in
/// the process.
pub open spec fn takes_from(m: SegmentMapping, r: DirtyMemoryRange, sector: int) -> bool {
    (m.moffset + (sector - m.segment.offset)) * 512 == r.base_host_virt_addr + (sector * 512
        - r.image_offset)
}

pub(crate) proof fn lemma_covered_sector_is_held(
    rs: Seq<DirtyMemoryRange>,
    memory_size: int,
    mappings: Seq<SegmentMapping>,
    sector: int,
    n: int,
) -> (i: int)
    requires
        ranges_fault(rs, memory_size) is None,
        0 <= memory_size <= i64::MAX,
        mappings.to_multiset() == all_chunks(rs).to_multiset(),
        0 <= n < rs.len(),
        covers(rs[n], sector),
    ensures
        0 <= i < mappings.len(),
        mappings[i].holds(sector),
{
    let all = all_chunks(rs);
    lemma_good_ranges(rs, memory_size, n);
    range_is_covered_once(rs[n], memory_size, sector);
    let k = choose|k: int|
        0 <= k < chunks(rs[n]).len() && (#[trigger] chunks(rs[n])[k]).holds(sector);
    let at = lemma_chunks_within(rs, n);
    let m = chunks(rs[n])[k];
    assert(all[at + k] == m);
    assert(all.contains(m));
    all.to_multiset_ensures();
    mappings.to_multiset_ensures();
    assert(mappings.to_multiset().count(m) > 0);
    assert(mappings.contains(m));
    choose|i: int| 0 <= i < mappings.len() && mappings[i] == m
}

/// A segment of an arrangement is a chunk of some range.
pub(crate) proof fn lemma_segment_is_a_chunk(
    rs: Seq<DirtyMemoryRange>,
    memory_size: int,
    mappings: Seq<SegmentMapping>,
    i: int,
) -> (place: (int, int))
    requires
        ranges_fault(rs, memory_size) is None,
        0 <= memory_size <= i64::MAX,
        mappings.to_multiset() == all_chunks(rs).to_multiset(),
        0 <= i < mappings.len(),
    ensures
        0 <= place.0 < rs.len(),
        0 <= place.1 < chunk_count(rs[place.0]),
        mappings[i] == chunk(rs[place.0], place.1),
{
    let all = all_chunks(rs);
    let m = mappings[i];
    all.to_multiset_ensures();
    mappings.to_multiset_ensures();
    assert(mappings.contains(m));
    assert(all.to_multiset().count(m) > 0);
    assert(all.contains(m));
    lemma_all_chunks(rs, memory_size, m);
    choose|n: int, k: int|
        0 <= n < rs.len() && 0 <= k < chunk_count(#[trigger] rs[n]) && m == #[trigger] chunk(
            rs[n],
            k,
        )
}

/// Whole sectors at the same distance from two places are as far apart as these.
proof fn lemma_same_distance(base: int, image: int, from: int, at: int, t: int, sector: int)
    requires
        base % 4096 == 0,
        image % 4096 == 0,
        from == base / 512 + t,
        at == image / 512 + t,
    ensures
        (from + (sector - at)) * 512 == base + (sector * 512 - image),
{
}

/// A sector of a segment that lies in a range, `t` sectors from its beginning, is a
/// sector of the range, and the segment takes it from there.
proof fn lemma_sector_of_segment(m: SegmentMapping, r: DirtyMemoryRange, t: int, sector: int)
    requires
        sound_range(r),
        t >= 0,
        m.segment.offset == r.image_offset as int / 512 + t,
        m.moffset == r.base_host_virt_addr as int / 512 + t,
        m.end() <= r.image_offset as int / 512 + sectors(r),
        m.holds(sector),
    ensures
        covers(r, sector),
        takes_from(m, r, sector),
{
    assert(covers(r, sector)) by {
        lemma_sectors_of_bytes(r, sector);
    }
    assert(takes_from(m, r, sector)) by {
        lemma_same_distance(
            r.base_host_virt_addr as int,
            r.image_offset as int,
            m.moffset as int,
            m.segment.offset as int,
            t,
            sector,
        );
    }
}

proof fn lemma_held_sector_is_covered(
    rs: Seq<DirtyMemoryRange>,
    memory_size: int,
    mappings: Seq<SegmentMapping>,
    sector: int,
    i: int,
) -> (n: int)
    requires
        ranges_fault(rs, memory_size) is None,
        0 <= memory_size <= i64::MAX,
        mappings.to_multiset() == all_chunks(rs).to_multiset(),
        0 <= i < mappings.len(),
        mappings[i].holds(sector),
    ensures
        0 <= n < rs.len(),
        covers(rs[n], sector),
        takes_from(mappings[i], rs[n], sector),
{
    let (n, k) = lemma_segment_is_a_chunk(rs, memory_size, mappings, i);
    lemma_good_ranges(rs, memory_size, n);
    lemma_good_is_sound(rs[n], memory_size);
    lemma_chunk_facts(rs[n], memory_size, k);
    lemma_sector_of_segment(mappings[i], rs[n], k * 16383, sector);
    n
}

/// The image holds exactly the dirty memory: a sector lies in a segment exactly
/// where a range holds it, and the segment takes it from where that range has it.
pub proof fn image_holds_exactly_the_dirty_memory(
    rs: Seq<DirtyMemoryRange>,
    memory_size: int,
    mappings: Seq<SegmentMapping>,
    sector: int,
)
    requires
        ranges_fault(rs, memory_size) is None,
        0 <= memory_size <= i64::MAX,
        arrangement(mappings, all_chunks(rs)),
    ensures
        forall|n: int|
            0 <= n < rs.len() && covers(#[trigger] rs[n], sector) ==> exists|i: int|
                0 <= i < mappings.len() && (#[trigger] mappings[i]).holds(sector),
        forall|i: int|
            0 <= i < mappings.len() && (#[trigger] mappings[i]).holds(sector) ==> exists|n: int|
                0 <= n < rs.len() && covers(#[trigger] rs[n], sector) && takes_from(
                    mappings[i],
                    rs[n],
                    sector,
                ),
{
    assert forall|n: int| 0 <= n < rs.len() && covers(#[trigger] rs[n], sector) implies exists|
        i: int,
    | 0 <= i < mappings.len() && (#[trigger] mappings[i]).holds(sector) by {
        let i = lemma_covered_sector_is_held(rs, memory_size, mappings, sector, n);
        assert(mappings[i].holds(sector));
    }
    assert forall|i: int| 0 <= i < mappings.len() && (#[trigger] mappings[i]).holds(
        sector,
    ) implies exists|n: int|
        0 <= n < rs.len() && covers(#[trigger] rs[n], sector) && takes_from(
            mappings[i],
            rs[n],
            sector,
        ) by {
        let n = lemma_held_sector_is_covered(rs, memory_size, mappings, sector, i);
        assert(covers(rs[n], sector));
    }
}

/// Two arrangements of the same segments have the same offsets in the same
/// order, also where segments with equal offsets stand in another order.
proof fn lemma_same_offsets(s: Seq<SegmentMapping>, t: Seq<SegmentMapping>)
    requires
        s.to_multiset() == t.to_multiset(),
        sorted_by_offset(s),
        sorted_by_offset(t),
    ensures
        s.len() == t.len(),
        forall|k: int|
            0 <= k < s.len() ==> (#[trigger] s[k]).segment.offset == t[k].segment.offset,
    decreases s.len(),
{
    s.to_multiset_ensures();
    t.to_multiset_ensures();
    if s.len() > 0 {
        let n = s.len() - 1;
        let m = s[n];
        assert(s.contains(m));
        assert(s.to_multiset().count(m) > 0);
        assert(t.contains(m));
        let p = choose|p: int| 0 <= p < t.len() && t[p] == m;
        assert(t.contains(t[n]));
        assert(t.to_multiset().count(t[n]) > 0);
        assert(s.contains(t[n]));
        let q = choose|q: int| 0 <= q < s.len() && s[q] == t[n];
        assert(s[q].segment.offset <= s[n].segment.offset);
        assert(t[p].segment.offset <= t[n].segment.offset);
        let rest_s = s.remove(n);
        let rest_t = t.remove(p);
        assert(rest_s.to_multiset() == rest_t.to_multiset());
        assert forall|i: int, j: int| 0 <= i <= j < rest_t.len() implies (
        #[trigger] rest_t[i]).segment.offset <= (#[trigger] rest_t[j]).segment.offset by {
            let a = if i < p {
                i
            } else {
                i + 1
            };
            let b = if j < p {
                j
            } else {
                j + 1
            };
            assert(t[a].segment.offset <= t[b].segment.offset);
        }
        assert forall|i: int, j: int| 0 <= i <= j < rest_s.len() implies (
        #[trigger] rest_s[i]).segment.offset <= (#[trigger] rest_s[j]).segment.offset by {
            assert(s[i].segment.offset <= s[j].segment.offset);
        }
        lemma_same_offsets(rest_s, rest_t);
        assert forall|k: int| 0 <= k < s.len() implies (#[trigger] s[k]).segment.offset
            == t[k].segment.offset by {
            if k < n {
                assert(rest_s[k] == s[k]);
                if k < p {
                    assert(rest_t[k] == t[k]);
                } else {
                    assert(rest_t[k] == t[k + 1]);
                    assert(t[p].segment.offset <= t[k].segment.offset);
                    assert(t[k + 1].segment.offset <= t[n].segment.offset);
                }
            }
        }
    }
}

/// Where the first segments of an arrangement do not reach into each other, every
/// other arrangement begins with the same segments.
proof fn lemma_same_beginning(s: Seq<SegmentMapping>, t: Seq<SegmentMapping>, i: int, k: int)
    requires
        s.to_multiset() == t.to_multiset(),
        sorted_by_offset(s),
        sorted_by_offset(t),
        all_nonempty(s),
        0 <= k < i < s.len(),
        forall|a: int, b: int|
            0 <= a < b <= i ==> (#[trigger] s[a]).end() <= (#[trigger] s[b]).segment.offset,
    ensures
        k < t.len(),
        t[k] == s[k],
{
    s.to_multiset_ensures();
    t.to_multiset_ensures();
    lemma_same_offsets(s, t);
    assert(s.contains(s[k]));
    assert(s.to_multiset().count(s[k]) > 0);
    assert(t.contains(s[k]));
    let p = choose|p: int| 0 <= p < t.len() && t[p] == s[k];
    assert(s[p].segment.offset == t[p].segment.offset);
    if p > k {
        assert(s[k].end() <= s[k + 1].segment.offset);
        assert(s[k + 1].segment.offset <= s[p].segment.offset);
        assert(s[k].segment.length > 0);
    } else if p < k {
        assert(s[p].end() <= s[p + 1].segment.offset);
        assert(s[p + 1].segment.offset <= s[k].segment.offset);
        assert(s[p].segment.length > 0);
    }
}

proof fn lemma_first_overlap_is_first(
    s: Seq<SegmentMapping>,
    t: Seq<SegmentMapping>,
    i: int,
    j: int,
)
    requires
        s.to_multiset() == t.to_multiset(),
        sorted_by_offset(s),
        sorted_by_offset(t),
        all_nonempty(s),
        first_overlap(s, i),
        first_overlap(t, j),
    ensures
        i <= j,
{
    lemma_same_offsets(s, t);
    if j < i {
        lemma_same_beginning(s, t, i, j);
        assert(s[j].end() <= s[j + 1].segment.offset);
        assert(s[j + 1].segment.offset == t[j + 1].segment.offset);
    }
}

/// A report with overlaps has one message only: the order of segments at the same
/// place, which sorting leaves open, makes no difference to it.
pub proof fn overlap_message_is_unique(d: DirtyMemoryRanges, a: Seq<char>, b: Seq<char>)
    requires
        report_fault(d) is None,
        overlap_reported(d, a),
        overlap_reported(d, b),
    ensures
        a == b,
{
    let all = all_chunks(d.ranges@);
    let (s, i) = choose|s: Seq<SegmentMapping>, i: int|
        arrangement(s, all) && #[trigger] first_overlap(s, i) && a == overlap_message(s[i], s[i + 1]);
    let (t, j) = choose|t: Seq<SegmentMapping>, j: int|
        arrangement(t, all) && #[trigger] first_overlap(t, j) && b == overlap_message(t[j], t[j + 1]);
    lemma_chunks_nonempty(d.ranges@, d.memory_size as int);
    lemma_elements_nonempty(all, s);
    lemma_elements_nonempty(all, t);
    lemma_first_overlap_is_first(s, t, i, j);
    lemma_first_overlap_is_first(t, s, j, i);
    lemma_same_offsets(s, t);
    assert(s[i].segment.offset == t[i].segment.offset);
    assert(s[i + 1].segment.offset == t[i + 1].segment.offset);
}

/// A report has one list of segments only.
pub proof fn segments_are_unique(
    d: DirtyMemoryRanges,
    s: Seq<SegmentMapping>,
    s_size: u64,
    t: Seq<SegmentMapping>,
    t_size: u64,
)
    requires
        report_fault(d) is None,
        segments_of(d, s, s_size),
        segments_of(d, t, t_size),
    ensures
        s == t,
        s_size == t_size,
{
    let all = all_chunks(d.ranges@);
    lemma_chunks_nonempty(d.ranges@, d.memory_size as int);
    lemma_elements_nonempty(all, s);
    lemma_same_offsets(s, t);
    s.to_multiset_ensures();
    t.to_multiset_ensures();
    assert forall|k: int| 0 <= k < s.len() implies #[trigger] s[k] == t[k] by {
        assert(s.contains(s[k]));
        assert(s.to_multiset().count(s[k]) > 0);
        assert(t.contains(s[k]));
        let p = choose|p: int| 0 <= p < t.len() && t[p] == s[k];
        assert(s[p].segment.offset == t[p].segment.offset);
        if p > k {
            assert(s[k].end() <= s[p].segment.offset);
        } else if p < k {
            assert(s[p].end() <= s[k].segment.offset);
        }
    }
    assert(s =~= t);
}

/// Taking a range out of a list takes its segments out of the list's segments.
proof fn lemma_chunks_without(rs: Seq<DirtyMemoryRange>, n: int)
    requires
        0 <= n < rs.len(),
    ensures
        all_chunks(rs).to_multiset() == all_chunks(rs.remove(n)).to_multiset().add(
            chunks(rs[n]).to_multiset(),
        ),
    decreases rs.len(),
{
    let init = rs.drop_last();
    vstd::seq_lib::lemma_multiset_commutative(all_chunks(init), chunks(rs.last()));
    if n == rs.len() - 1 {
        assert(rs.remove(n) =~= init);
    } else {
        let rest = rs.remove(n);
        lemma_chunks_without(init, n);
        assert(rest.drop_last() =~= init.remove(n));
        assert(rest.last() == rs.last());
        assert(init[n] == rs[n]);
        vstd::seq_lib::lemma_multiset_commutative(all_chunks(init.remove(n)), chunks(rs.last()));
        assert(all_chunks(rs).to_multiset() =~= all_chunks(rest).to_multiset().add(
            chunks(rs[n]).to_multiset(),
        ));
    }
}

/// The segments of a list of ranges do not depend on the order of the ranges.
proof fn lemma_chunks_in_any_order(a: Seq<DirtyMemoryRange>, b: Seq<DirtyMemoryRange>)
    requires
        a.to_multiset() == b.to_multiset(),
    ensures
        all_chunks(a).to_multiset() == all_chunks(b).to_multiset(),
    decreases a.len(),
{
    a.to_multiset_ensures();
    b.to_multiset_ensures();
    if a.len() > 0 {
        let r = a.last();
        assert(a.contains(r));
        assert(a.to_multiset().count(r) > 0);
        assert(b.contains(r));
        let n = choose|n: int| 0 <= n < b.len() && b[n] == r;
        let m = a.len() - 1;
        assert(a.remove(m).to_multiset() == b.remove(n).to_multiset());
        lemma_chunks_in_any_order(a.remove(m), b.remove(n));
        lemma_chunks_without(a, m);
        lemma_chunks_without(b, n);
    } else {
        assert(a =~= b);
    }
}

/// A list of ranges is free of faults exactly where each range is.
pub(crate) proof fn lemma_all_good(rs: Seq<DirtyMemoryRange>, memory_size: int)
    ensures
        ranges_fault(rs, memory_size) is None <==> forall|n: int|
            0 <= n < rs.len() ==> range_fault(#[trigger] rs[n], memory_size) is None,
    decreases rs.len(),
{
    if rs.len() > 0 {
        let init = rs.drop_last();
        lemma_all_good(init, memory_size);
        if ranges_fault(rs, memory_size) is None {
            assert forall|n: int| 0 <= n < rs.len() implies range_fault(
                #[trigger] rs[n],
                memory_size,
            ) is None by {
                if n < init.len() {
                    assert(range_fault(init[n], memory_size) is None);
                }
            }
        } else if forall|n: int|
            0 <= n < rs.len() ==> range_fault(#[trigger] rs[n], memory_size) is None {
            assert forall|n: int| 0 <= n < init.len() implies range_fault(
                #[trigger] init[n],
                memory_size,
            ) is None by {
                assert(range_fault(rs[n], memory_size) is None);
            }
            assert(range_fault(rs[rs.len() - 1], memory_size) is None);
        }
    }
}

proof fn lemma_good_in_any_order(
    a: Seq<DirtyMemoryRange>,
    b: Seq<DirtyMemoryRange>,
    memory_size: int,
)
    requires
        a.to_multiset() == b.to_multiset(),
        ranges_fault(a, memory_size) is None,
    ensures
        ranges_fault(b, memory_size) is None,
{
    a.to_multiset_ensures();
    b.to_multiset_ensures();
    lemma_all_good(a, memory_size);
    lemma_all_good(b, memory_size);
    assert forall|n: int| 0 <= n < b.len() implies range_fault(
        #[trigger] b[n],
        memory_size,
    ) is None by {
        assert(b.contains(b[n]));
        assert(b.to_multiset().count(b[n]) > 0);
        assert(a.contains(b[n]));
        let k = choose|k: int| 0 <= k < a.len() && a[k] == b[n];
        assert(range_fault(a[k], memory_size) is None);
    }
}

/// The order of the ranges of a report makes no difference: two reports with the same
/// ranges are both free of faults or both not, and if they are, both give the same
/// segments, or are both refused with the same message.
pub proof fn the_order_of_a_report_does_not_matter(
    a: DirtyMemoryRanges,
    b: DirtyMemoryRanges,
    mappings: Seq<SegmentMapping>,
    size: u64,
    message: Seq<char>,
)
    requires
        a.page_size == b.page_size,
        a.memory_size == b.memory_size,
        a.ranges@.to_multiset() == b.ranges@.to_multiset(),
    ensures
        report_fault(a) is None <==> report_fault(b) is None,
        report_fault(a) is None ==> {
            &&& all_disjoint(all_chunks(a.ranges@)) <==> all_disjoint(all_chunks(b.ranges@))
            &&& segments_of(a, mappings, size) <==> segments_of(b, mappings, size)
            &&& overlap_reported(a, message) <==> overlap_reported(b, message)
        },
{
    let memory_size = a.memory_size as int;
    if report_fault(a) is None {
        lemma_good_in_any_order(a.ranges@, b.ranges@, memory_size);
    }
    if report_fault(b) is None {
        lemma_good_in_any_order(b.ranges@, a.ranges@, memory_size);
    }
    lemma_chunks_in_any_order(a.ranges@, b.ranges@);
    if report_fault(a) is None {
        let s = all_chunks(a.ranges@);
        let t = all_chunks(b.ranges@);
        lemma_chunks_nonempty(a.ranges@, memory_size);
        lemma_chunks_nonempty(b.ranges@, memory_size);
        if all_disjoint(s) {
            lemma_disjoint_in_any_order(s, t);
        }
        if all_disjoint(t) {
            lemma_disjoint_in_any_order(t, s);
        }
    }
}

} // verus!

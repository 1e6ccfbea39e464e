//! What turning dirty memory into segments is for: which reports are accepted, and
//! what the segments of an accepted report are, said of bytes and sectors alone.
use vstd::prelude::*;

use crate::dirty_memory;
use crate::dirty_memory::DirtyMemoryRanges;
use crate::dirty_memory::SegmentMapping;
use crate::text;

verus! {

/// A report is free of faults exactly where its pages have 4096 bytes, its memory is
/// made of whole pages, and each of its ranges is made of whole pages, is not empty
/// and ends within the memory. Where a range lies in the process makes no other
/// difference.
pub proof fn reports_of_whole_pages_are_free_of_faults(d: DirtyMemoryRanges)
    ensures
        dirty_memory::report_fault(d) is None <==> {
            &&& d.page_size == 4096
            &&& d.memory_size >= 0
            &&& d.memory_size as int % 4096 == 0
            &&& forall|n: int|
                0 <= n < d.ranges@.len() ==> {
                    let r = #[trigger] d.ranges@[n];
                    &&& r.base_host_virt_addr >= 0
                    &&& r.base_host_virt_addr as int % 4096 == 0
                    &&& r.image_offset >= 0
                    &&& r.image_offset as int % 4096 == 0
                    &&& r.length > 0
                    &&& r.length as int % 4096 == 0
                    &&& r.image_offset + r.length <= d.memory_size
                }
        },
{
    dirty_memory::lemma_all_good(d.ranges@, d.memory_size as int);
    assert forall|n: int| 0 <= n < d.ranges@.len() implies (dirty_memory::range_fault(
        #[trigger] d.ranges@[n],
        d.memory_size as int,
    ) is None <==> {
        let r = d.ranges@[n];
        &&& r.base_host_virt_addr >= 0
        &&& r.base_host_virt_addr as int % 4096 == 0
        &&& r.image_offset >= 0
        &&& r.image_offset as int % 4096 == 0
        &&& r.length > 0
        &&& r.length as int % 4096 == 0
        &&& r.image_offset + r.length <= d.memory_size
    }) by {}
}

/// A report without faults is turned into segments exactly where no byte of the image
/// lies in two of its ranges.
pub proof fn reports_are_refused_for_shared_bytes_only(d: DirtyMemoryRanges)
    requires
        dirty_memory::report_fault(d) is None,
    ensures
        dirty_memory::all_disjoint(dirty_memory::all_chunks(d.ranges@)) <==> forall|a: int, b: int|
            0 <= a < b < d.ranges@.len() ==> {
                let r = #[trigger] d.ranges@[a];
                let s = #[trigger] d.ranges@[b];
                r.image_offset + r.length <= s.image_offset || s.image_offset + s.length
                    <= r.image_offset
            },
{
    dirty_memory::overlap_is_a_shared_byte(d.ranges@, d.memory_size as int);
    if dirty_memory::all_apart(d.ranges@) {
        assert forall|a: int, b: int| 0 <= a < b < d.ranges@.len() implies {
            let r = #[trigger] d.ranges@[a];
            let s = #[trigger] d.ranges@[b];
            r.image_offset + r.length <= s.image_offset || s.image_offset + s.length
                <= r.image_offset
        } by {
            assert(dirty_memory::ranges_apart(d.ranges@[a], d.ranges@[b]));
        }
    }
}

/// The segments of an accepted report lie one after the other in the image, each
/// within a range, and take their sectors from where that range has them in the
/// process. A range is cut from its beginning into pieces of 16383 sectors, of which
/// only the last may be shorter. The size is that of the reported memory.
pub proof fn segments_are_pieces_of_ranges(
    d: DirtyMemoryRanges,
    mappings: Seq<SegmentMapping>,
    size: u64,
    i: int,
) -> (n: int)
    requires
        dirty_memory::report_fault(d) is None,
        dirty_memory::segments_of(d, mappings, size),
        0 <= i < mappings.len(),
    ensures
        size == d.memory_size,
        forall|j: int|
            i < j < mappings.len() ==> mappings[i].segment.offset + mappings[i].segment.length <= (
            #[trigger] mappings[j]).segment.offset,
        !mappings[i].zeroed,
        mappings[i].tag == 0,
        0 < mappings[i].segment.length <= 16383,
        0 <= n < d.ranges@.len(),
        ({
            let r = d.ranges@[n];
            let m = mappings[i];
            let start = m.segment.offset * 512;
            let end = start + m.segment.length * 512;
            &&& r.image_offset <= start
            &&& end <= r.image_offset + r.length
            &&& (start - r.image_offset) % 8388096 == 0
            &&& m.segment.length == 16383 || end == r.image_offset + r.length
            &&& m.moffset * 512 - r.base_host_virt_addr == start - r.image_offset
        }),
{
    let memory_size = d.memory_size as int;
    let (n, k) = dirty_memory::lemma_segment_is_a_chunk(d.ranges@, memory_size, mappings, i);
    let r = d.ranges@[n];
    dirty_memory::lemma_good_ranges(d.ranges@, memory_size, n);
    dirty_memory::lemma_chunk_facts(r, memory_size, k);
    assert(r.image_offset == r.image_offset as int / 512 * 512);
    assert(r.base_host_virt_addr == r.base_host_virt_addr as int / 512 * 512);
    assert(r.length == r.length as int / 512 * 512);
    lemma_piece(
        r.image_offset as int / 512,
        r.base_host_virt_addr as int / 512,
        r.length as int / 512,
        k,
        mappings[i].segment.offset as int,
        mappings[i].moffset as int,
        mappings[i].segment.length as int,
    );
    n
}

/// A piece of whole sectors in bytes; `first`, `from` and `count` are the numbers of
/// sectors before the range in the image, before it in the process, and of the range.
proof fn lemma_piece(
    first: int,
    from: int,
    count: int,
    k: int,
    offset: int,
    moffset: int,
    sectors: int,
)
    requires
        k >= 0,
        offset == first + k * 16383,
        moffset == from + k * 16383,
        offset + sectors <= first + count,
        sectors == 16383 || offset + sectors == first + count,
    ensures
        first * 512 <= offset * 512,
        offset * 512 + sectors * 512 <= first * 512 + count * 512,
        (offset * 512 - first * 512) % 8388096 == 0,
        sectors == 16383 || offset * 512 + sectors * 512 == first * 512 + count * 512,
        moffset * 512 - from * 512 == offset * 512 - first * 512,
{
    vstd::arithmetic::div_mod::lemma_mod_multiples_basic(k, 8388096);
    assert(offset * 512 - first * 512 == k * 8388096);
}

/// No sector of the dirty memory is left out: each sector of a range lies in one of
/// the segments.
pub proof fn every_dirty_sector_lies_in_a_segment(
    d: DirtyMemoryRanges,
    mappings: Seq<SegmentMapping>,
    size: u64,
    n: int,
    sector: int,
) -> (i: int)
    requires
        dirty_memory::report_fault(d) is None,
        dirty_memory::segments_of(d, mappings, size),
        0 <= n < d.ranges@.len(),
        d.ranges@[n].image_offset <= sector * 512 < d.ranges@[n].image_offset
            + d.ranges@[n].length,
    ensures
        0 <= i < mappings.len(),
        mappings[i].segment.offset <= sector < mappings[i].segment.offset
            + mappings[i].segment.length,
{
    dirty_memory::lemma_covered_sector_is_held(
        d.ranges@,
        d.memory_size as int,
        mappings,
        sector,
        n,
    )
}

/// What a refusal for overlaps names: where two segments begin, the first two in the
/// order of the image of which one reaches into the next.
pub proof fn refusals_name_the_first_overlap(d: DirtyMemoryRanges, message: Seq<char>) -> (found: (
    Seq<SegmentMapping>,
    int,
))
    requires
        dirty_memory::overlap_reported(d, message),
    ensures
        ({
            let (s, i) = found;
            &&& s.to_multiset() == dirty_memory::all_chunks(d.ranges@).to_multiset()
            &&& forall|a: int, b: int|
                0 <= a <= b < s.len() ==> (#[trigger] s[a]).segment.offset <= (
                #[trigger] s[b]).segment.offset
            &&& 0 <= i < s.len() - 1
            &&& s[i + 1].segment.offset < s[i].segment.offset + s[i].segment.length
            &&& forall|a: int, b: int|
                0 <= a < b <= i ==> (#[trigger] s[a]).segment.offset + s[a].segment.length <= (
                #[trigger] s[b]).segment.offset
            &&& message
                == "overlapping dirty memory destination ranges detected at image sectors "@
                + text::decimal(s[i].segment.offset as nat) + " and "@ + text::decimal(
                s[i + 1].segment.offset as nat,
            )
        }),
{
    let (s, i) = choose|s: Seq<SegmentMapping>, i: int|
        dirty_memory::arrangement(s, dirty_memory::all_chunks(d.ranges@))
            && #[trigger] dirty_memory::first_overlap(s, i) && message
            == dirty_memory::overlap_message(s[i], s[i + 1]);
    assert forall|a: int, b: int| 0 <= a < b <= i implies (#[trigger] s[a]).segment.offset
        + s[a].segment.length <= (#[trigger] s[b]).segment.offset by {
        assert(s[a].end() <= s[b].segment.offset);
    }
    (s, i)
}

/// What a fault of a single range is called says which of its numbers is wrong, and
/// the number.
pub proof fn faults_of_a_range_name_the_wrong_number(
    r: dirty_memory::DirtyMemoryRange,
    memory_size: int,
)
    requires
        memory_size >= 0,
    ensures
        r.base_host_virt_addr < 0 ==> dirty_memory::range_fault(r, memory_size) == Some(
            "base_host_virt_addr"@ + " must be non-negative, got "@ + text::signed_decimal(
                r.base_host_virt_addr as int,
            ),
        ),
        r.base_host_virt_addr >= 0 && r.image_offset < 0 ==> dirty_memory::range_fault(
            r,
            memory_size,
        ) == Some(
            "image_offset"@ + " must be non-negative, got "@ + text::signed_decimal(
                r.image_offset as int,
            ),
        ),
        r.base_host_virt_addr >= 0 && r.image_offset >= 0 && r.length < 0
            ==> dirty_memory::range_fault(r, memory_size) == Some(
            "length"@ + " must be non-negative, got "@ + text::signed_decimal(r.length as int),
        ),
        r.base_host_virt_addr >= 0 && r.image_offset >= 0 && r.length == 0
            ==> dirty_memory::range_fault(r, memory_size) == Some(
            "dirty memory range length must be positive"@,
        ),
        r.base_host_virt_addr >= 0 && r.image_offset >= 0 && r.length > 0 ==> {
            let said = dirty_memory::range_fault(r, memory_size);
            let whole = |n: i64| n as int % 4096 == 0;
            &&& !whole(r.base_host_virt_addr) ==> said == Some(
                "dirty range base_host_virt_addr "@ + text::prefixed_hex(
                    r.base_host_virt_addr as nat,
                ) + " is not 4096-byte aligned"@,
            )
            &&& whole(r.base_host_virt_addr) && !whole(r.image_offset) ==> said == Some(
                "dirty range image_offset "@ + text::decimal(r.image_offset as nat)
                    + " is not 4096-byte aligned"@,
            )
            &&& whole(r.base_host_virt_addr) && whole(r.image_offset) && !whole(r.length) ==> said
                == Some(
                "dirty range length "@ + text::decimal(r.length as nat)
                    + " is not 4096-byte aligned"@,
            )
        },
        r.base_host_virt_addr >= 0 && r.base_host_virt_addr as int % 4096 == 0 && r.image_offset
            >= 0 && r.image_offset as int % 4096 == 0 && r.length > 0 && r.length as int % 4096
            == 0 && r.image_offset + r.length > memory_size ==> dirty_memory::range_fault(
            r,
            memory_size,
        ) == Some(
            "dirty range ["@ + text::decimal(r.image_offset as nat) + ", "@ + text::decimal(
                (r.image_offset + r.length) as nat,
            ) + ") exceeds memory_size "@ + text::decimal(memory_size as nat),
        ),
{
}

} // verus!

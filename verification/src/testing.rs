//! A split queue laid out in guest memory as a driver would lay it out,
//! for exercising a device's side of the queue.

use crate::guest_memory::addr_mapped;
use crate::guest_memory::guest_regions;
use crate::guest_memory::range_mapped;
use crate::guest_memory::write_u16;
use crate::guest_memory::write_u32;
use crate::guest_memory::write_u64;
use crate::guest_memory::GuestAddress;
use crate::queue::is_power_of_two;
use crate::queue::Queue;
use vm_memory::GuestMemoryMmap;
use vstd::prelude::*;

verus! {

/// Size of a descriptor in the table.
pub const DESCRIPTOR_LEN: u64 = 16;

/// Size of an element of the available ring.
pub const AVAIL_ELEM_LEN: u64 = 2;

/// Size of an element of the used ring.
pub const USED_ELEM_LEN: u64 = 8;

/// The first address from `addr` on that is a multiple of `align`, for an
/// alignment of 2 or 4.
pub open spec fn spec_align_up(addr: int, align: int) -> int {
    if addr % align == 0 {
        addr
    } else {
        addr + align - addr % align
    }
}

/// Rounds `addr` up to a multiple of `align`.
pub fn align_up(addr: u64, align: u64) -> (r: u64)
    requires
        align == 2 || align == 4,
        addr + align <= u64::MAX,
    ensures
        r == spec_align_up(addr as int, align as int),
        addr <= r < addr + align,
        r % align == 0,
{
    let rest: u64 = addr % align;
    if rest == 0 {
        addr
    } else {
        addr + (align - rest)
    }
}

/// Represents a virtio descriptor in guest memory.
pub struct VirtqDesc {
    /// Where the descriptor stands
    pub start: GuestAddress,
}

impl VirtqDesc {
    /// Where the `addr` field stands.
    pub fn addr(&self) -> (r: GuestAddress)
        requires
            self.start.0 + 16 <= u64::MAX,
        ensures
            r.0 == self.start.0,
    {
        self.start
    }

    /// Where the `len` field stands.
    pub fn len(&self) -> (r: GuestAddress)
        requires
            self.start.0 + 16 <= u64::MAX,
        ensures
            r.0 == self.start.0 + 8,
    {
        self.start.unchecked_add(8)
    }

    /// Where the `flags` field stands.
    pub fn flags(&self) -> (r: GuestAddress)
        requires
            self.start.0 + 16 <= u64::MAX,
        ensures
            r.0 == self.start.0 + 12,
    {
        self.start.unchecked_add(12)
    }

    /// Where the `next` field stands.
    pub fn next(&self) -> (r: GuestAddress)
        requires
            self.start.0 + 16 <= u64::MAX,
        ensures
            r.0 == self.start.0 + 14,
    {
        self.start.unchecked_add(14)
    }

    /// Stores the four fields; the result says whether all four stores
    /// went to mapped memory.
    pub fn set(&self, mem: &GuestMemoryMmap, addr: u64, len: u32, flags: u16, next: u16) -> (r:
        bool)
        requires
            self.start.0 + 16 <= u64::MAX,
        ensures
            r == range_mapped(guest_regions(*mem), self.start.0 as int, 16),
    {
        let stored = write_u64(mem, addr, self.addr()).is_ok() && write_u32(
            mem,
            len,
            self.len(),
        ).is_ok() && write_u16(mem, flags, self.flags()).is_ok() && write_u16(
            mem,
            next,
            self.next(),
        ).is_ok();
        proof {
            let regions = guest_regions(*mem);
            let at = self.start.0 as int;
            if stored {
                assert(range_mapped(regions, at, 8));
                assert(range_mapped(regions, at + 8, 4));
                assert(range_mapped(regions, at + 12, 2));
                assert(range_mapped(regions, at + 14, 2));
            }
            if range_mapped(regions, at, 16) {
                assert(addr_mapped(regions, at + 8) && addr_mapped(regions, at + 12) && addr_mapped(
                    regions,
                    at + 14,
                ));
            }
        }
        stored
    }

    /// Bytes of a table of `nelem` descriptors.
    pub fn dtable_len(nelem: u16) -> (r: usize)
        ensures
            r == 16 * nelem,
    {
        let n: usize = nelem as usize;
        16 * n
    }
}

/// Represents a virtio queue ring. The only difference between the used and available rings,
/// is the ring element type.
pub struct VirtqRing {
    /// Where the ring stands
    pub start: GuestAddress,
    /// Number of elements
    pub qsize: u16,
    /// Size of an element: 2 in the available ring, 8 in the used ring
    pub elem_len: u64,
}

impl VirtqRing {
    /// Whether the ring is one of the two kinds and ends in the address
    /// space.
    pub open spec fn wf(&self) -> bool {
        &&& self.elem_len == 2 || self.elem_len == 8
        &&& self.start.0 + 6 + self.elem_len * self.qsize <= u64::MAX
    }

    pub fn start(&self) -> (r: GuestAddress)
        ensures
            r == self.start,
    {
        self.start
    }

    /// The address just behind the ring.
    pub fn end(&self) -> (r: GuestAddress)
        requires
            self.wf(),
        ensures
            r.0 == self.start.0 + 6 + self.elem_len * self.qsize,
    {
        let len: u64 = VirtqRing::ring_len(self.elem_len, self.qsize);
        self.start.unchecked_add(len)
    }

    /// Where the flags stand.
    pub fn flags(&self) -> (r: GuestAddress)
        ensures
            r == self.start,
    {
        self.start
    }

    /// Where the ring's index stands.
    pub fn idx(&self) -> (r: GuestAddress)
        requires
            self.wf(),
        ensures
            r.0 == self.start.0 + 2,
    {
        self.start.unchecked_add(2)
    }

    /// Offset of element `i` in a ring of elements of `elem_len` bytes.
    pub fn ring_offset(elem_len: u64, i: u16) -> (r: u64)
        requires
            elem_len == 2 || elem_len == 8,
        ensures
            r == 4 + elem_len * i,
    {
        let n: u64 = i as u64;
        4 + elem_len * n
    }

    /// Where element `i` stands.
    pub fn ring(&self, i: u16) -> (r: GuestAddress)
        requires
            self.wf(),
            i < self.qsize,
        ensures
            r.0 == self.start.0 + 4 + self.elem_len * i,
    {
        assert(self.elem_len * i <= self.elem_len * self.qsize) by (nonlinear_arith)
            requires
                i < self.qsize,
                0 <= self.elem_len,
        ;
        self.start.unchecked_add(VirtqRing::ring_offset(self.elem_len, i))
    }

    /// Where the event field stands, behind the last element.
    pub fn event(&self) -> (r: GuestAddress)
        requires
            self.wf(),
        ensures
            r.0 == self.start.0 + 4 + self.elem_len * self.qsize,
    {
        self.start.unchecked_add(VirtqRing::ring_offset(self.elem_len, self.qsize))
    }

    /// Bytes of a ring of `qsize` elements of `elem_len` bytes.
    pub fn ring_len(elem_len: u64, qsize: u16) -> (r: u64)
        requires
            elem_len == 2 || elem_len == 8,
        ensures
            r == 6 + elem_len * qsize,
    {
        VirtqRing::ring_offset(elem_len, qsize) + 2
    }

    /// Whether flags, index and event field are mapped.
    pub open spec fn fields_mapped(&self, regions: Seq<(u64, u64)>) -> bool {
        &&& range_mapped(regions, self.start.0 as int, 2)
        &&& range_mapped(regions, self.start.0 + 2, 2)
        &&& range_mapped(regions, self.start.0 + 4 + self.elem_len * self.qsize, 2)
    }

    /// Clears flags, index and event field; the result says whether the
    /// three stores went to mapped memory.
    fn clear(&self, mem: &GuestMemoryMmap) -> (r: bool)
        requires
            self.wf(),
        ensures
            r == self.fields_mapped(guest_regions(*mem)),
    {
        write_u16(mem, 0, self.flags()).is_ok() && write_u16(mem, 0, self.idx()).is_ok()
            && write_u16(mem, 0, self.event()).is_ok()
    }
}

/// A descriptor table, an available ring and a used ring, one behind the
/// other.
pub struct VirtQueue {
    pub start: GuestAddress,
    pub qsize: u16,
    pub avail: VirtqRing,
    pub used: VirtqRing,
}

impl VirtQueue {
    /// Whether the three parts lie as `new` lays them out: the table at
    /// `start`, the available ring behind it at the next even address, the
    /// used ring behind that at the next multiple of four.
    pub open spec fn wf(&self) -> bool {
        &&& is_power_of_two(self.qsize)
        &&& self.avail.elem_len == 2
        &&& self.used.elem_len == 8
        &&& self.avail.qsize == self.qsize
        &&& self.used.qsize == self.qsize
        &&& self.avail.start.0 == spec_align_up(self.start.0 + 16 * self.qsize, 2)
        &&& self.used.start.0 == spec_align_up(self.avail.start.0 + 6 + 2 * self.qsize, 4)
        &&& self.used.start.0 + 6 + 8 * self.qsize <= u64::MAX
    }

    /// Lays a queue of `qsize` elements out from `start` on and clears the
    /// fields of its two rings. There is none where `qsize` is no power of
    /// two, or the queue would leave the address space, or a ring's field
    /// is not mapped.
    pub fn new(start: GuestAddress, mem: &GuestMemoryMmap, qsize: u16) -> (r: Option<VirtQueue>)
        ensures
            r matches Some(q) ==> q.wf() && q.start == start && q.qsize == qsize
                && q.avail.fields_mapped(guest_regions(*mem)) && q.used.fields_mapped(
                guest_regions(*mem),
            ),
            r is Some <==> is_power_of_two(qsize) && start.0 <= 0xffff_ffff_0000_0000 && ({
                let avail = VirtqRing {
                    start: GuestAddress(spec_align_up(start.0 + 16 * qsize, 2) as u64),
                    qsize,
                    elem_len: 2,
                };
                let used = VirtqRing {
                    start: GuestAddress(spec_align_up(avail.start.0 + 6 + 2 * qsize, 4) as u64),
                    qsize,
                    elem_len: 8,
                };
                avail.fields_mapped(guest_regions(*mem)) && used.fields_mapped(
                    guest_regions(*mem),
                )
            }),
    {
        if !power_of_two(qsize) {
            return None;
        }
        if start.0 > 0xffff_ffff_0000_0000 {
            return None;
        }
        let avail_addr: u64 = align_up(start.0 + (VirtqDesc::dtable_len(qsize) as u64), 2);
        let avail = VirtqRing { start: GuestAddress(avail_addr), qsize, elem_len: AVAIL_ELEM_LEN };
        let used_addr: u64 = align_up(avail.end().0, 4);
        let used = VirtqRing { start: GuestAddress(used_addr), qsize, elem_len: USED_ELEM_LEN };
        let queue = VirtQueue { start, qsize, avail, used };
        assert(queue.wf());
        if !queue.avail.clear(mem) || !queue.used.clear(mem) {
            return None;
        }
        Some(queue)
    }

    pub fn size(&self) -> (r: u16)
        ensures
            r == self.qsize,
    {
        self.qsize
    }

    /// Descriptor `i` of the table.
    pub fn dtable(&self, i: u16) -> (r: VirtqDesc)
        requires
            self.wf(),
            i < self.qsize,
        ensures
            r.start.0 == self.start.0 + 16 * i,
            r.start.0 + 16 <= u64::MAX,
    {
        let n: u64 = i as u64;
        VirtqDesc { start: self.start.unchecked_add(16 * n) }
    }

    pub fn avail(&self) -> (r: &VirtqRing)
        ensures
            *r == self.avail,
    {
        &self.avail
    }

    pub fn used(&self) -> (r: &VirtqRing)
        ensures
            *r == self.used,
    {
        &self.used
    }

    pub fn dtable_start(&self) -> (r: GuestAddress)
        ensures
            r == self.start,
    {
        self.start
    }

    pub fn avail_start(&self) -> (r: GuestAddress)
        ensures
            r == self.avail.start,
    {
        self.avail.start()
    }

    pub fn used_start(&self) -> (r: GuestAddress)
        ensures
            r == self.used.start,
    {
        self.used.start()
    }

    /// Creates a new Queue, using the underlying memory regions represented by the VirtQueue.
    pub fn create_queue(&self) -> (r: Queue)
        ensures
            r == Queue::new_spec(self.qsize).with_rings(
                true,
                self.start,
                self.avail.start,
                self.used.start,
            ),
            self.wf() ==> {
                &&& is_power_of_two(r.size)
                &&& r.size <= r.max_size
                &&& r.avail_ring.0 % 2 == 0
                &&& r.used_ring.0 % 4 == 0
            },
    {
        let mut q = Queue::new(self.size());

        q.size = self.size();
        q.ready = true;
        q.desc_table = self.dtable_start();
        q.avail_ring = self.avail_start();
        q.used_ring = self.used_start();

        q
    }

    pub fn start(&self) -> (r: GuestAddress)
        ensures
            r == self.start,
    {
        self.dtable_start()
    }

    /// The address just behind the used ring.
    pub fn end(&self) -> (r: GuestAddress)
        requires
            self.wf(),
        ensures
            r.0 == self.used.start.0 + 6 + 8 * self.qsize,
    {
        self.used.end()
    }
}

/// Whether `n` is a power of two.
pub fn power_of_two(n: u16) -> (r: bool)
    ensures
        r == is_power_of_two(n),
{
    n == 0x1 || n == 0x2 || n == 0x4 || n == 0x8 || n == 0x10 || n == 0x20 || n == 0x40 || n
        == 0x80 || n == 0x100 || n == 0x200 || n == 0x400 || n == 0x800 || n == 0x1000 || n
        == 0x2000 || n == 0x4000 || n == 0x8000
}

} // verus!

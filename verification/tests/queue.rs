use std::sync::Arc;
use vm_memory::Bytes;
use vm_memory::GuestMemoryMmap;
use vmm_core::guest_memory::GuestAddress;
use vmm_core::queue::decide_notification;
use vmm_core::queue::fetch_descriptor;
use vmm_core::queue::translate;
use vmm_core::queue::Descriptor;
use vmm_core::queue::DescriptorChain;
use vmm_core::queue::Error;
use vmm_core::queue::Queue;
use vmm_core::queue::VirtioIommuRemapping;
use vmm_core::queue::VirtqUsedElem;
use vmm_core::queue::VIRTQ_DESC_F_INDIRECT;
use vmm_core::queue::VIRTQ_DESC_F_NEXT;
use vmm_core::queue::VIRTQ_DESC_F_WRITE;
use vmm_core::testing::align_up;
use vmm_core::testing::VirtQueue;

fn guest_memory(len: usize) -> GuestMemoryMmap {
    GuestMemoryMmap::from_ranges(&[(vm_memory::GuestAddress(0), len)]).unwrap()
}

fn store_u16(m: &GuestMemoryMmap, at: GuestAddress, v: u16) {
    m.write_obj::<u16>(v, vm_memory::GuestAddress(at.0)).unwrap();
}

fn store_u32(m: &GuestMemoryMmap, at: GuestAddress, v: u32) {
    m.write_obj::<u32>(v, vm_memory::GuestAddress(at.0)).unwrap();
}

fn store_u64(m: &GuestMemoryMmap, at: GuestAddress, v: u64) {
    m.write_obj::<u64>(v, vm_memory::GuestAddress(at.0)).unwrap();
}

fn load_u16(m: &GuestMemoryMmap, at: GuestAddress) -> u16 {
    m.read_obj::<u16>(vm_memory::GuestAddress(at.0)).unwrap()
}

fn load_used_elem(m: &GuestMemoryMmap, at: GuestAddress) -> VirtqUsedElem {
    let id: u32 = m.read_obj::<u32>(vm_memory::GuestAddress(at.0)).unwrap();
    let len: u32 = m.read_obj::<u32>(vm_memory::GuestAddress(at.0 + 4)).unwrap();
    VirtqUsedElem { id, len }
}

/// Offset of the first byte that differs between the encodings of two
/// descriptors.
fn first_difference(a: &Descriptor, b: &Descriptor) -> usize {
    let (x, y) = (a.to_bytes(), b.to_bytes());
    (0..16).find(|&i| x[i] != y[i]).unwrap()
}

struct Shift(u64);

impl VirtioIommuRemapping for Shift {
    fn remap(&self, addr: u64) -> Option<u64> {
        addr.checked_add(self.0)
    }
}

struct Unmapped;

impl VirtioIommuRemapping for Unmapped {
    fn remap(&self, _addr: u64) -> Option<u64> {
        None
    }
}

#[test]
fn test_checked_new_descriptor_chain() {
    let m = &guest_memory(0x10000);
    let vq = VirtQueue::new(GuestAddress(0), m, 16).unwrap();

    assert!(vq.end().0 < 0x1000);

    // index >= queue_size
    assert!(DescriptorChain::checked_new(m, vq.start(), 16, 16, None).is_none());

    // desc_table address is way off
    assert!(DescriptorChain::checked_new(m, GuestAddress(0x00ff_ffff_ffff), 16, 0, None).is_none());

    // the addr field of the descriptor is way off
    store_u64(m, vq.dtable(0).addr(), 0x0fff_ffff_ffff);
    assert!(DescriptorChain::checked_new(m, vq.start(), 16, 0, None).is_none());

    // let's create some invalid chains

    {
        // the addr field of the desc is ok now
        store_u64(m, vq.dtable(0).addr(), 0x1000);
        // ...but the length is too large
        store_u32(m, vq.dtable(0).len(), 0xffff_ffff);
        assert!(DescriptorChain::checked_new(m, vq.start(), 16, 0, None).is_none());
    }

    {
        // the first desc has a normal len now, and the next_descriptor flag is set
        store_u32(m, vq.dtable(0).len(), 0x1000);
        store_u16(m, vq.dtable(0).flags(), VIRTQ_DESC_F_NEXT);
        //..but the the index of the next descriptor is too large
        store_u16(m, vq.dtable(0).next(), 16);

        assert!(DescriptorChain::checked_new(m, vq.start(), 16, 0, None).is_none());
    }

    // finally, let's test an ok chain

    {
        store_u16(m, vq.dtable(0).next(), 1);
        assert!(vq.dtable(1).set(m, 0x2000, 0x1000, 0, 0));

        let mut c = DescriptorChain::checked_new(m, vq.start(), 16, 0, None).unwrap();

        assert!(std::ptr::eq(c.mem, m));
        assert_eq!(c.desc_table, vq.start());
        assert_eq!(c.table_size, 16);
        assert_eq!(c.ttl, c.table_size);
        assert_eq!(c.index(), 0);
        let desc = c.next().unwrap();
        assert_eq!(desc.addr(), GuestAddress(0x1000));
        assert_eq!(desc.len(), 0x1000);
        assert_eq!(desc.flags(), VIRTQ_DESC_F_NEXT);
        assert_eq!(desc.next, 1);

        assert!(c.next().is_some());
        assert!(c.next().is_none());
    }
}

#[test]
fn test_new_from_descriptor_chain() {
    let m = &guest_memory(0x10000);
    let vq = VirtQueue::new(GuestAddress(0), m, 16).unwrap();

    // create a chain with a descriptor pointing to an indirect table
    store_u64(m, vq.dtable(0).addr(), 0x1000);
    store_u32(m, vq.dtable(0).len(), 0x1000);
    store_u16(m, vq.dtable(0).next(), 0);
    store_u16(m, vq.dtable(0).flags(), VIRTQ_DESC_F_INDIRECT);

    let desc_chain = DescriptorChain::checked_new(m, vq.start(), 16, 0, None).unwrap();
    assert!(desc_chain.is_indirect());

    // Create the indirect chain, at 0x1000.
    let vq_indirect = VirtQueue::new(GuestAddress(0x1000), m, 16).unwrap();
    for j in 0..4u16 {
        assert!(vq_indirect.dtable(j).set(m, 0x1000, 0x1000, VIRTQ_DESC_F_NEXT, j + 1));
    }

    // try to iterate through the indirect table descriptors
    let mut indirect_desc_chain = desc_chain.new_from_indirect().unwrap();
    let mut indirect_desc = indirect_desc_chain.next().unwrap();
    for j in 0..4u16 {
        assert_eq!(indirect_desc.flags, VIRTQ_DESC_F_NEXT);
        assert_eq!(indirect_desc.next, j + 1);
        indirect_desc = indirect_desc_chain.next().unwrap();
    }
}

#[test]
fn test_queue_and_iterator() {
    let m = &guest_memory(0x10000);
    let vq = VirtQueue::new(GuestAddress(0), m, 16).unwrap();

    let mut q = vq.create_queue();

    // q is currently valid
    assert!(q.is_valid(m));

    // shouldn't be valid when not marked as ready
    q.ready = false;
    assert!(!q.is_valid(m));
    q.ready = true;

    // or when size > max_size
    q.size = q.max_size << 1;
    assert!(!q.is_valid(m));
    q.size = q.max_size;

    // or when size is 0
    q.size = 0;
    assert!(!q.is_valid(m));
    q.size = q.max_size;

    // or when size is not a power of 2
    q.size = 11;
    assert!(!q.is_valid(m));
    q.size = q.max_size;

    // or if the various addresses are off

    q.desc_table = GuestAddress(0xffff_ffff);
    assert!(!q.is_valid(m));
    q.desc_table = GuestAddress(0x1001);
    assert!(!q.is_valid(m));
    q.desc_table = vq.dtable_start();

    q.avail_ring = GuestAddress(0xffff_ffff);
    assert!(!q.is_valid(m));
    q.avail_ring = GuestAddress(0x1001);
    assert!(!q.is_valid(m));
    q.avail_ring = vq.avail_start();

    q.used_ring = GuestAddress(0xffff_ffff);
    assert!(!q.is_valid(m));
    q.used_ring = GuestAddress(0x1001);
    assert!(!q.is_valid(m));
    q.used_ring = vq.used_start();

    {
        // an invalid queue should return an iterator with no next
        q.ready = false;
        let mut i = q.iter(m);
        assert!(i.next().is_none());
    }

    q.ready = true;

    // now let's create two simple descriptor chains

    {
        for j in 0..5u16 {
            assert!(vq.dtable(j).set(
                m,
                0x1000 * (j + 1) as u64,
                0x1000,
                VIRTQ_DESC_F_NEXT,
                j + 1
            ));
        }

        // the chains are (0, 1) and (2, 3, 4)
        store_u16(m, vq.dtable(1).flags(), 0);
        store_u16(m, vq.dtable(4).flags(), 0);
        store_u16(m, vq.avail().ring(0), 0);
        store_u16(m, vq.avail().ring(1), 2);
        store_u16(m, vq.avail().idx(), 2);

        let mut i = q.iter(m);

        {
            let mut c = i.next().unwrap();
            c.next().unwrap();
            assert!(!c.has_next());
            assert!(c.next().is_some());
            assert!(c.next().is_none());
        }

        {
            let mut c = i.next().unwrap();
            c.next().unwrap();
            c.next().unwrap();
            c.next().unwrap();
            assert!(!c.has_next());
            assert!(c.next().is_none());
        }
    }

    // also test go_to_previous_position() works as expected
    {
        assert!(q.iter(m).next().is_none());
        q.go_to_previous_position();
        let mut c = q.iter(m).next().unwrap();
        c.next().unwrap();
        c.next().unwrap();
        c.next().unwrap();
        assert!(!c.has_next());
        assert!(c.next().is_none());
    }
}

#[test]
fn test_offset() {
    let zero = Descriptor::default();
    assert_eq!(first_difference(&zero, &Descriptor { addr: u64::MAX, ..zero }), 0);
    assert_eq!(first_difference(&zero, &Descriptor { len: u32::MAX, ..zero }), 8);
    assert_eq!(first_difference(&zero, &Descriptor { flags: u16::MAX, ..zero }), 12);
    assert_eq!(first_difference(&zero, &Descriptor { next: u16::MAX, ..zero }), 14);
}

#[test]
fn test_add_used() {
    let m = &guest_memory(0x10000);
    let vq = VirtQueue::new(GuestAddress(0), m, 16).unwrap();

    let mut q = vq.create_queue();
    assert_eq!(load_u16(m, vq.used().idx()), 0);

    //index too large
    q.add_used(m, 16, 0x1000);
    assert_eq!(load_u16(m, vq.used().idx()), 0);

    //should be ok
    q.add_used(m, 1, 0x1000);
    assert_eq!(load_u16(m, vq.used().idx()), 1);
    let x = load_used_elem(m, vq.used().ring(0));
    assert_eq!(x.id, 1);
    assert_eq!(x.len, 0x1000);
}

#[test]
fn descriptor_bytes_round_trip() {
    let d = Descriptor { addr: 0x1122_3344_5566_7788, len: 0x99aa_bbcc, flags: 0x0102, next: 0x0304 };
    let bytes = d.to_bytes();
    assert_eq!(
        bytes,
        [0x88, 0x77, 0x66, 0x55, 0x44, 0x33, 0x22, 0x11, 0xcc, 0xbb, 0xaa, 0x99, 0x02, 0x01, 0x04, 0x03]
    );
    assert_eq!(Descriptor::from_bytes(&bytes), d);
    let raw: [u8; 16] = [1, 2, 3, 4, 5, 6, 7, 8, 9, 10, 11, 12, 13, 14, 15, 16];
    assert_eq!(Descriptor::from_bytes(&raw).to_bytes(), raw);
}

#[test]
fn descriptor_flags() {
    let d = Descriptor { addr: 0, len: 0, flags: VIRTQ_DESC_F_WRITE, next: 0 };
    assert!(d.is_write_only());
    assert!(!d.has_next());
    assert!(d.is_empty());
    let e = Descriptor { addr: 0, len: 1, flags: VIRTQ_DESC_F_NEXT, next: 0 };
    assert!(!e.is_write_only());
    assert!(e.has_next());
    assert!(!e.is_empty());
}

#[test]
fn fetched_descriptor_is_what_memory_holds() {
    let m = &guest_memory(0x10000);
    let vq = VirtQueue::new(GuestAddress(0), m, 16).unwrap();
    assert!(vq.dtable(3).set(m, 0xdead_beef, 0x42, VIRTQ_DESC_F_WRITE, 7));
    let d = fetch_descriptor(m, vq.start(), 16, 3).unwrap();
    assert_eq!(d, Descriptor { addr: 0xdead_beef, len: 0x42, flags: VIRTQ_DESC_F_WRITE, next: 7 });
    // an index outside the table, and a table that leaves the region
    assert!(fetch_descriptor(m, vq.start(), 16, 16).is_none());
    assert!(fetch_descriptor(m, GuestAddress(0xfff8), 16, 0).is_none());
}

#[test]
fn simple_chain_iteration() {
    let m = &guest_memory(0x10000);
    let vq = VirtQueue::new(GuestAddress(0), m, 16).unwrap();
    let mut q = vq.create_queue();
    for j in 0..3u16 {
        assert!(vq.dtable(j).set(m, 0x1000 * (j + 1) as u64, 0x1000, VIRTQ_DESC_F_NEXT, j + 1));
    }
    store_u16(m, vq.dtable(2).flags(), 0);
    store_u16(m, vq.avail().ring(0), 0);
    store_u16(m, vq.avail().idx(), 1);

    let mut i = q.iter(m);
    let mut c = i.next().unwrap();
    assert!(i.next().is_none());
    let d0 = c.next().unwrap();
    assert_eq!((d0.addr, d0.len, d0.flags, d0.next), (0x1000, 0x1000, VIRTQ_DESC_F_NEXT, 1));
    let d1 = c.next().unwrap();
    assert_eq!((d1.addr, d1.len, d1.flags, d1.next), (0x2000, 0x1000, VIRTQ_DESC_F_NEXT, 2));
    let d2 = c.next().unwrap();
    assert_eq!((d2.addr, d2.len, d2.flags), (0x3000, 0x1000, 0));
    assert!(c.next().is_none());
    assert_eq!(q.next_avail, 1);
}

#[test]
fn indirect_table_of_four() {
    let m = &guest_memory(0x10000);
    let vq = VirtQueue::new(GuestAddress(0), m, 16).unwrap();
    assert!(vq.dtable(0).set(m, 0x1000, 0x40, VIRTQ_DESC_F_INDIRECT, 0));
    let head = DescriptorChain::checked_new(m, vq.start(), 16, 0, None).unwrap();
    for j in 0..4u64 {
        let d = Descriptor { addr: 0x2000 + j, len: 0x1000, flags: VIRTQ_DESC_F_NEXT, next: j as u16 + 1 };
        m.write_slice(&d.to_bytes(), vm_memory::GuestAddress(0x1000 + 16 * j)).unwrap();
    }
    let mut chain = head.new_from_indirect().unwrap();
    assert_eq!(chain.table_size, 4);
    assert_eq!(chain.ttl, 4);
    assert_eq!(chain.index(), 0);
    assert_eq!(chain.desc_table, GuestAddress(0x1000));
    for j in 0..4u64 {
        let d = chain.next().unwrap();
        assert_eq!(d.addr, 0x2000 + j);
        assert_eq!(d.next, j as u16 + 1);
    }
    assert!(chain.next().is_none());
}

#[test]
fn indirect_errors() {
    let m = &guest_memory(0x10000);
    let vq = VirtQueue::new(GuestAddress(0), m, 16).unwrap();
    // not an indirect descriptor
    assert!(vq.dtable(0).set(m, 0x1000, 0x40, 0, 0));
    let plain = DescriptorChain::checked_new(m, vq.start(), 16, 0, None).unwrap();
    assert!(matches!(plain.new_from_indirect(), Err(Error::InvalidIndirectDescriptor)));
    // the table's first entry is not mapped in full
    assert!(vq.dtable(1).set(m, 0xfff8, 0x4, VIRTQ_DESC_F_INDIRECT, 0));
    let off = DescriptorChain::checked_new(m, vq.start(), 16, 1, None).unwrap();
    assert!(matches!(off.new_from_indirect(), Err(Error::GuestMemoryError)));
    // the first entry of the table points outside memory
    assert!(vq.dtable(2).set(m, 0x3000, 0x40, VIRTQ_DESC_F_INDIRECT, 0));
    store_u64(m, GuestAddress(0x3000), 0x0fff_ffff_ffff);
    let bad = DescriptorChain::checked_new(m, vq.start(), 16, 2, None).unwrap();
    assert!(matches!(bad.new_from_indirect(), Err(Error::InvalidChain)));
    // a table of more than 65535 entries
    let huge = DescriptorChain {
        desc: Descriptor { addr: 0x1000, len: 0x10_0000, flags: VIRTQ_DESC_F_INDIRECT, next: 0 },
        ..DescriptorChain::checked_new(m, vq.start(), 16, 0, None).unwrap()
    };
    assert!(matches!(huge.new_from_indirect(), Err(Error::InvalidChain)));
}

#[test]
fn chain_cycle_ends_with_ttl() {
    let m = &guest_memory(0x10000);
    let vq = VirtQueue::new(GuestAddress(0), m, 4).unwrap();
    // 0 -> 1 -> 0 -> ...
    assert!(vq.dtable(0).set(m, 0x1000, 0x10, VIRTQ_DESC_F_NEXT, 1));
    assert!(vq.dtable(1).set(m, 0x2000, 0x10, VIRTQ_DESC_F_NEXT, 0));
    let mut c = DescriptorChain::checked_new(m, vq.start(), 4, 0, None).unwrap();
    let mut yielded: usize = 0;
    while c.next().is_some() {
        yielded += 1;
    }
    assert_eq!(yielded, 4);
    assert_eq!(c.ttl, 0);
}

#[test]
fn chain_link_outside_table_ends_iteration() {
    let m = &guest_memory(0x10000);
    let vq = VirtQueue::new(GuestAddress(0), m, 4).unwrap();
    assert!(vq.dtable(0).set(m, 0x1000, 0x10, VIRTQ_DESC_F_NEXT, 1));
    assert!(vq.dtable(1).set(m, 0x2000, 0x10, VIRTQ_DESC_F_NEXT, 9));
    let mut c = DescriptorChain::checked_new(m, vq.start(), 4, 0, None).unwrap();
    assert_eq!(c.next().unwrap().addr, 0x1000);
    assert!(c.next().is_none());
    assert_eq!(c.ttl, 3);
}

#[test]
fn readable_and_writable_descriptors() {
    let m = &guest_memory(0x10000);
    let vq = VirtQueue::new(GuestAddress(0), m, 4).unwrap();
    assert!(vq.dtable(0).set(m, 0x1000, 0x10, VIRTQ_DESC_F_NEXT, 1));
    assert!(vq.dtable(1).set(m, 0x2000, 0x10, VIRTQ_DESC_F_NEXT | VIRTQ_DESC_F_WRITE, 2));
    assert!(vq.dtable(2).set(m, 0x3000, 0x10, 0, 0));
    let mut r = DescriptorChain::checked_new(m, vq.start(), 4, 0, None).unwrap().readable();
    assert_eq!(r.next().unwrap().addr, 0x1000);
    assert_eq!(r.next().unwrap().addr, 0x3000);
    assert!(r.next().is_none());
    let mut w = DescriptorChain::checked_new(m, vq.start(), 4, 0, None).unwrap().writable();
    assert_eq!(w.next().unwrap().addr, 0x2000);
    assert!(w.next().is_none());
}

#[test]
fn chain_head_round_trip() {
    let m = &guest_memory(0x10000);
    let vq = VirtQueue::new(GuestAddress(0), m, 4).unwrap();
    assert!(vq.dtable(2).set(m, 0x1000, 0x10, 0, 0));
    let c = DescriptorChain::checked_new(m, vq.start(), 4, 2, None).unwrap();
    let head = c.get_head();
    assert_eq!((head.desc_table, head.table_size, head.index), (vq.start(), 4, 2));
    let again = DescriptorChain::new_from_head(m, head).unwrap();
    assert_eq!(again.index(), 2);
    assert_eq!(again.addr(), GuestAddress(0x1000));
    assert_eq!(again.len(), 0x10);
    assert_eq!(again.flags(), 0);
    assert!(!again.is_empty());
    assert!(!again.is_write_only());
    let mut head = again.get_head();
    head.index = 4;
    assert!(matches!(DescriptorChain::new_from_head(m, head), Err(Error::InvalidChain)));
}

#[test]
fn translated_addresses() {
    let m = &guest_memory(0x10000);
    let vq = VirtQueue::new(GuestAddress(0), m, 4).unwrap();
    assert!(vq.dtable(0).set(m, 0x100, 0x10, 0, 0));
    let shift: Arc<dyn VirtioIommuRemapping> = Arc::new(Shift(0x2000));
    let c = DescriptorChain::checked_new(m, vq.start(), 4, 0, Some(shift.clone())).unwrap();
    assert_eq!(c.addr(), GuestAddress(0x2100));
    assert_eq!(translate(&Some(shift.clone()), 5), Some(0x2005));
    assert_eq!(translate(&None, 5), Some(5));
    let none: Arc<dyn VirtioIommuRemapping> = Arc::new(Unmapped);
    assert!(DescriptorChain::checked_new(m, vq.start(), 4, 0, Some(none.clone())).is_none());

    let mut q = Queue::new(4);
    q.desc_table = GuestAddress(0x10);
    q.avail_ring = GuestAddress(0x20);
    q.used_ring = GuestAddress(0x30);
    q.iommu_mapping_cb = Some(shift);
    q.enable(true);
    assert!(q.ready);
    assert_eq!((q.desc_table.0, q.avail_ring.0, q.used_ring.0), (0x2010, 0x2020, 0x2030));
    q.iommu_mapping_cb = Some(none);
    q.enable(true);
    assert!(!q.ready);
    assert_eq!((q.desc_table.0, q.avail_ring.0, q.used_ring.0), (0x2010, 0x2020, 0x2030));
    q.enable(false);
    assert_eq!((q.desc_table.0, q.avail_ring.0, q.used_ring.0), (0, 0, 0));
}

#[test]
fn queue_lifecycle() {
    let mut q = Queue::new(256);
    assert_eq!(q.get_max_size(), 256);
    assert_eq!(q.actual_size(), 256);
    assert!(!q.ready);
    q.size = 64;
    assert_eq!(q.actual_size(), 64);
    q.size = 512;
    assert_eq!(q.actual_size(), 256);
    q.next_avail = 7;
    q.next_used = 9;
    q.enable(true);
    assert!(q.ready);
    q.reset();
    assert!(!q.ready);
    assert_eq!((q.size, q.next_avail, q.next_used), (256, 0, 0));
    q.go_to_previous_position();
    assert_eq!(q.next_avail, 0xffff);
}

#[test]
fn used_ring_publication() {
    let m = &guest_memory(0x10000);
    let vq = VirtQueue::new(GuestAddress(0), m, 16).unwrap();
    let mut q = vq.create_queue();
    let p = q.used_publication(1, 0x1000).unwrap();
    assert_eq!(p.elem_addr, vq.used().ring(0));
    assert_eq!(p.elem, VirtqUsedElem { id: 1, len: 0x1000 });
    assert_eq!(p.idx_addr.0, vq.used_start().0 + 2);
    assert_eq!(p.idx, 1);
    assert_eq!(q.add_used(m, 1, 0x1000), Some(1));
    assert_eq!(load_u16(m, GuestAddress(vq.used_start().0 + 2)), 1);
    assert_eq!(load_used_elem(m, GuestAddress(vq.used_start().0 + 4)), VirtqUsedElem { id: 1, len: 0x1000 });
    assert_eq!(q.next_used, 1);
    // the slot is taken modulo the size, the index modulo 2^16
    q.next_used = 0xffff;
    assert_eq!(q.used_publication(3, 7).unwrap().elem_addr, vq.used().ring(15));
    assert_eq!(q.add_used(m, 3, 7), Some(0));
    assert_eq!(load_used_elem(m, vq.used().ring(15)), VirtqUsedElem { id: 3, len: 7 });
    assert_eq!(load_u16(m, vq.used().idx()), 0);
    // rejected: an index outside the queue, and a ring outside memory
    assert_eq!(q.add_used(m, 16, 0), None);
    assert!(q.used_publication(16, 0).is_none());
    q.used_ring = GuestAddress(0x20000);
    assert_eq!(q.add_used(m, 1, 0), None);
    assert_eq!(q.next_used, 0);
    q.used_ring = GuestAddress(u64::MAX - 3);
    assert!(q.used_publication(1, 0).is_none());
}

#[test]
fn ring_indices_from_memory() {
    let m = &guest_memory(0x10000);
    let vq = VirtQueue::new(GuestAddress(0), m, 16).unwrap();
    let mut q = vq.create_queue();
    store_u16(m, vq.avail().idx(), 5);
    store_u16(m, vq.used().idx(), 3);
    assert_eq!(q.avail_index_from_memory(m).unwrap(), 5);
    assert_eq!(q.used_index_from_memory(m).unwrap(), 3);
    assert_eq!(q.index_from_memory(vq.used_start(), m).unwrap(), 3);
    assert!(q.available_descriptors(m).unwrap());
    store_u16(m, vq.used().idx(), 5);
    assert!(!q.available_descriptors(m).unwrap());
    q.avail_ring = GuestAddress(0x20000);
    assert!(matches!(q.avail_index_from_memory(m), Err(Error::InvalidOffset(0x20002))));
    assert!(matches!(q.available_descriptors(m), Err(Error::InvalidOffset(0x20002))));
    q.avail_ring = GuestAddress(u64::MAX);
    assert!(matches!(q.avail_index_from_memory(m), Err(Error::InvalidOffset(1))));
    q.avail_ring = GuestAddress(0xfffd);
    assert!(matches!(q.avail_index_from_memory(m), Err(Error::InvalidRingIndexFromMemory(_))));
}

#[test]
fn event_index_fields() {
    let m = &guest_memory(0x10000);
    let vq = VirtQueue::new(GuestAddress(0), m, 16).unwrap();
    let mut q = vq.create_queue();
    assert_eq!(q.used_event_offset(), 36);
    assert_eq!(q.avail_event_offset(), 132);
    store_u16(m, vq.avail().event(), 0x1234);
    assert_eq!(q.get_used_event(m), Some(0x1234));
    store_u16(m, vq.avail().idx(), 9);
    q.update_avail_event(m);
    assert_eq!(load_u16(m, vq.used().event()), 9);
    q.avail_ring = GuestAddress(0x20000);
    assert_eq!(q.get_used_event(m), None);
}

#[test]
fn notification_suppression() {
    // the driver is spared iff used_idx - used_event - 1 >= used_idx - signalled (mod 2^16)
    assert!(decide_notification(false, Some(0), Some(0), 0));
    assert!(decide_notification(true, None, Some(0), 5));
    assert!(decide_notification(true, Some(3), None, 5));
    assert!(decide_notification(true, Some(3), Some(4), 5));
    assert!(decide_notification(true, Some(3), Some(3), 5));
    assert!(!decide_notification(true, Some(3), Some(5), 5));
    assert!(!decide_notification(true, Some(3), Some(2), 5));
    assert!(decide_notification(true, Some(0xfffe), Some(0xffff), 1));
    assert!(!decide_notification(true, Some(0xfffe), Some(0xfffd), 1));

    let m = &guest_memory(0x10000);
    let vq = VirtQueue::new(GuestAddress(0), m, 16).unwrap();
    let mut q = vq.create_queue();
    // feature off: always notify, the index is recorded, twice as once
    assert!(q.needs_notification(m, 7));
    assert_eq!(q.signalled_used, Some(7));
    assert!(q.needs_notification(m, 7));
    assert_eq!(q.signalled_used, Some(7));
    q.set_event_idx(true);
    assert!(q.event_idx);
    assert_eq!(q.signalled_used, None);
    store_u16(m, vq.avail().event(), 5);
    assert!(q.needs_notification(m, 3));
    assert!(!q.needs_notification(m, 5));
    assert!(q.needs_notification(m, 6));
    assert_eq!(q.signalled_used, Some(6));
}

#[test]
fn iterator_counts_chains_and_wraps() {
    let m = &guest_memory(0x10000);
    let vq = VirtQueue::new(GuestAddress(0), m, 4).unwrap();
    let mut q = vq.create_queue();
    for j in 0..4u16 {
        assert!(vq.dtable(j).set(m, 0x1000, 0x10, 0, 0));
        store_u16(m, vq.avail().ring(j), j);
    }
    q.next_avail = 0xfffe;
    store_u16(m, vq.avail().idx(), 1);
    {
        let mut i = q.iter(m);
        assert_eq!(i.next().unwrap().index(), 2);
        assert_eq!(i.next().unwrap().index(), 3);
        assert_eq!(i.next().unwrap().index(), 0);
        assert!(i.next().is_none());
    }
    assert_eq!(q.next_avail, 1);
    // a head that starts no valid chain ends the iteration and is not counted
    store_u16(m, vq.avail().ring(1), 9);
    store_u16(m, vq.avail().idx(), 3);
    {
        let mut i = q.iter(m);
        assert!(i.next().is_none());
        assert!(i.next().is_none());
    }
    assert_eq!(q.next_avail, 1);
    // a queue of no elements yields nothing
    q.size = 0;
    assert!(q.iter(m).next().is_none());
    assert_eq!(q.next_avail, 1);
}

#[test]
fn laid_out_queue() {
    let m = &guest_memory(0x10000);
    assert!(VirtQueue::new(GuestAddress(0), m, 0).is_none());
    assert!(VirtQueue::new(GuestAddress(0), m, 12).is_none());
    assert!(VirtQueue::new(GuestAddress(0x20000), m, 16).is_none());
    let vq = VirtQueue::new(GuestAddress(0x10), m, 1).unwrap();
    assert_eq!(vq.size(), 1);
    assert_eq!(vq.dtable_start().0, 0x10);
    assert_eq!(vq.avail_start().0, 0x20);
    assert_eq!(vq.avail().start().0, 0x20);
    assert_eq!(vq.avail().end().0, 0x28);
    assert_eq!(vq.used_start().0, 0x28);
    assert_eq!(vq.used().flags().0, 0x28);
    assert_eq!(vq.used().end().0, 0x36);
    assert_eq!(vq.end().0, 0x36);
    assert_eq!(align_up(0x21, 4), 0x24);
    assert_eq!(align_up(0x24, 4), 0x24);
    assert_eq!(align_up(0x21, 2), 0x22);
}

#[test]
fn error_messages() {
    assert_eq!(Error::GuestMemoryError.to_string(), "error accessing guest memory");
    assert_eq!(Error::InvalidChain.to_string(), "invalid descriptor chain");
    assert_eq!(Error::InvalidIndirectDescriptor.to_string(), "invalid indirect descriptor");
    assert_eq!(Error::InvalidOffset(0x20002).to_string(), "invalid offset 131074");
    let m = &guest_memory(0x1000);
    let mut q = Queue::new(4);
    q.avail_ring = GuestAddress(0xffd);
    let e = q.avail_index_from_memory(m).unwrap_err();
    let text = e.to_string();
    assert!(text.starts_with("invalid ring index from memory: "));
    assert!(text.len() > "invalid ring index from memory: ".len());
}

#[test]
fn rings_must_end_inside_memory() {
    // a queue of 16 entries: a table of 256 bytes, an available ring of 38, a used ring of 134
    let m = &guest_memory(0x1000);
    let vq = VirtQueue::new(GuestAddress(0), m, 16).unwrap();
    let mut q = vq.create_queue();
    assert_eq!((q.avail_ring.0, q.used_ring.0), (0x100, 0x128));
    assert_eq!(vq.end().0, 0x128 + 6 + 8 * 16);
    assert!(q.is_valid(m));
    // the address just behind a ring must be mapped
    q.desc_table = GuestAddress(0x1000 - 16 * 16);
    assert!(!q.is_valid(m));
    q.desc_table = GuestAddress(0x1000 - 16 * 16 - 16);
    assert!(q.is_valid(m));
    q.avail_ring = GuestAddress(0x1000 - (6 + 2 * 16));
    assert!(!q.is_valid(m));
    q.avail_ring = GuestAddress(0x1000 - (6 + 2 * 16) - 2);
    assert!(q.is_valid(m));
    q.used_ring = GuestAddress(0x1000 - (6 + 8 * 16) + 2);
    assert!(!q.is_valid(m));
    q.used_ring = GuestAddress(0x1000 - (6 + 8 * 16) - 2);
    assert!(q.is_valid(m));
    // a smaller size asks for less
    q.used_ring = GuestAddress(0x1000 - (6 + 8 * 8) - 2);
    q.size = 8;
    assert!(q.is_valid(m));
    q.used_ring = GuestAddress(u64::MAX - 3);
    assert!(!q.is_valid(m));
    // a copy of a queue is a queue of its own
    let mut copy = q.clone();
    copy.size = 4;
    assert_eq!((q.size, copy.size, copy.max_size), (8, 4, 16));
}

#[test]
fn filtered_iteration_ends_with_the_chain() {
    let m = &guest_memory(0x10000);
    let vq = VirtQueue::new(GuestAddress(0), m, 4).unwrap();
    assert!(vq.dtable(0).set(m, 0x1000, 0x10, VIRTQ_DESC_F_NEXT | VIRTQ_DESC_F_WRITE, 1));
    assert!(vq.dtable(1).set(m, 0x2000, 0x10, VIRTQ_DESC_F_NEXT, 2));
    assert!(vq.dtable(2).set(m, 0x3000, 0x10, VIRTQ_DESC_F_WRITE, 0));
    // the chain stands at a descriptor of the kind asked for: that one is returned
    let mut w = DescriptorChain::checked_new(m, vq.start(), 4, 0, None).unwrap().writable();
    assert_eq!(w.next().unwrap().addr, 0x1000);
    assert_eq!((w.chain.ttl, w.chain.desc.addr), (3, 0x2000));
    assert_eq!(w.next().unwrap().addr, 0x3000);
    assert_eq!(w.chain.ttl, 0);
    assert!(w.next().is_none());
    assert_eq!(w.chain.ttl, 0);
    // none of the kind asked for: the whole chain is passed over
    let mut r = DescriptorChain::checked_new(m, vq.start(), 4, 2, None).unwrap().readable();
    assert!(r.next().is_none());
    assert_eq!(r.chain.ttl, 0);
    // a link that cannot be followed is the end as well, and the chain stays there
    store_u16(m, vq.dtable(1).next(), 7);
    let mut r = DescriptorChain::checked_new(m, vq.start(), 4, 0, None).unwrap().readable();
    assert!(r.next().is_none());
    assert_eq!((r.chain.ttl, r.chain.desc.addr), (3, 0x2000));
    assert!(r.next().is_none());
    assert_eq!((r.chain.ttl, r.chain.desc.addr), (3, 0x2000));
}

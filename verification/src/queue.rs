//! The virtio split-queue transport: descriptors, descriptor chains, and
//! the queue with its available and used rings.

use crate::endian::le_bytes_u16;
use crate::endian::le_bytes_u32;
use crate::endian::le_bytes_u64;
use crate::endian::le_u16_at;
use crate::endian::le_u32_at;
use crate::endian::le_u64_at;
use crate::endian::lemma_bytes_of_le_u16;
use crate::endian::lemma_bytes_of_le_u32;
use crate::endian::lemma_bytes_of_le_u64;
use crate::endian::lemma_le_u16_of_bytes;
use crate::endian::lemma_le_u32_of_bytes;
use crate::endian::lemma_le_u64_of_bytes;
use crate::fence::full_fence;
use crate::fence::release_fence;
use crate::guest_memory::addr_mapped;
use crate::guest_memory::address_in_range;
use crate::guest_memory::checked_offset;
use crate::guest_memory::error_text;
use crate::guest_memory::guest_regions;
use crate::guest_memory::range_in_one_region;
use crate::guest_memory::range_mapped;
use crate::guest_memory::read_bytes16;
use crate::guest_memory::read_table_entry;
use crate::guest_memory::read_u16;
use crate::guest_memory::spec_checked_offset;
use crate::guest_memory::write_u16;
use crate::guest_memory::write_u32;
use crate::guest_memory::GuestAddress;
use crate::text::decimal;
use crate::text::decimal_text;
use std::sync::Arc;
use vm_memory::GuestMemoryError;
use vm_memory::GuestMemoryMmap;
use vstd::prelude::*;
use vstd::string::*;

verus! {

/// The descriptor continues in the descriptor that `next` names.
pub const VIRTQ_DESC_F_NEXT: u16 = 0x1;

/// The buffer is for the device to write and the driver to read.
pub const VIRTQ_DESC_F_WRITE: u16 = 0x2;

/// The buffer holds a table of descriptors.
pub const VIRTQ_DESC_F_INDIRECT: u16 = 0x4;

#[derive(Debug)]
pub enum Error {
    GuestMemoryError,
    InvalidIndirectDescriptor,
    InvalidChain,
    InvalidOffset(u64),
    InvalidRingIndexFromMemory(GuestMemoryError),
}

impl Error {
    /// What the error says to the user, but for what the memory says of a
    /// ring index that could not be read, which follows it.
    pub open spec fn message(&self) -> Seq<char> {
        match self {
            Error::GuestMemoryError => "error accessing guest memory"@,
            Error::InvalidChain => "invalid descriptor chain"@,
            Error::InvalidIndirectDescriptor => "invalid indirect descriptor"@,
            Error::InvalidOffset(o) => "invalid offset "@ + decimal_text(*o as nat),
            Error::InvalidRingIndexFromMemory(_) => "invalid ring index from memory: "@,
        }
    }

    /// What the error says to the user.
    pub fn to_string(&self) -> (r: String)
        ensures
            !(self is InvalidRingIndexFromMemory) ==> r@ == self.message(),
            self is InvalidRingIndexFromMemory ==> r@.len() >= self.message().len() && r@.take(
                self.message().len() as int,
            ) == self.message(),
    {
        match self {
            Error::GuestMemoryError => "error accessing guest memory".to_owned(),
            Error::InvalidChain => "invalid descriptor chain".to_owned(),
            Error::InvalidIndirectDescriptor => "invalid indirect descriptor".to_owned(),
            Error::InvalidOffset(o) => "invalid offset ".to_owned().concat(decimal(*o).as_str()),
            Error::InvalidRingIndexFromMemory(e) => {
                let head = "invalid ring index from memory: ".to_owned();
                let r = head.concat(error_text(e).as_str());
                assert(r@.take(head@.len() as int) =~= head@);
                r
            },
        }
    }
}

/// A virtio descriptor: sixteen bytes of a descriptor table, little-endian.
#[derive(Clone, Copy, Debug, PartialEq, Eq, Structural)]
pub struct Descriptor {
    /// Guest physical address of device specific data
    pub addr: u64,
    /// Length of device specific data
    pub len: u32,
    /// Includes next, write, and indirect bits
    pub flags: u16,
    /// Index into the descriptor table of the next descriptor if flags has
    /// the next bit set
    pub next: u16,
}

impl Default for Descriptor {
    fn default() -> (r: Descriptor)
        ensures
            r == (Descriptor { addr: 0, len: 0, flags: 0, next: 0 }),
    {
        Descriptor { addr: 0, len: 0, flags: 0, next: 0 }
    }
}

impl Descriptor {
    /// Whether the next bit is set.
    pub open spec fn spec_has_next(&self) -> bool {
        self.flags & VIRTQ_DESC_F_NEXT != 0
    }

    /// Whether the write bit is set.
    pub open spec fn spec_is_write_only(&self) -> bool {
        self.flags & VIRTQ_DESC_F_WRITE != 0
    }

    /// Whether the indirect bit is set.
    pub open spec fn spec_is_indirect(&self) -> bool {
        self.flags & VIRTQ_DESC_F_INDIRECT != 0
    }

    /// The sixteen bytes of the descriptor in a descriptor table.
    pub open spec fn spec_to_bytes(&self) -> Seq<u8> {
        le_bytes_u64(self.addr) + le_bytes_u32(self.len) + le_bytes_u16(self.flags) + le_bytes_u16(
            self.next,
        )
    }

    /// The descriptor that sixteen bytes of a descriptor table hold.
    pub open spec fn spec_from_bytes(bytes: Seq<u8>) -> Descriptor {
        Descriptor {
            addr: le_u64_at(bytes, 0),
            len: le_u32_at(bytes, 8),
            flags: le_u16_at(bytes, 12),
            next: le_u16_at(bytes, 14),
        }
    }

    /// Return the guest physical address of descriptor buffer
    pub fn addr(&self) -> (r: GuestAddress)
        ensures
            r == GuestAddress(self.addr),
    {
        GuestAddress(self.addr)
    }

    /// Return the length of descriptor buffer
    pub fn len(&self) -> (r: u32)
        ensures
            r == self.len,
    {
        self.len
    }

    /// Check if this is an empty descriptor.
    pub fn is_empty(&self) -> (r: bool)
        ensures
            r == (self.len == 0),
    {
        self.len() == 0
    }

    /// Return the flags for this descriptor, including next, write and indirect
    /// bits
    pub fn flags(&self) -> (r: u16)
        ensures
            r == self.flags,
    {
        self.flags
    }

    /// Checks if the driver designated this as a write only descriptor.
    ///
    /// If this is false, this descriptor is read only.
    /// Write only means the the emulated device can write and the driver can read.
    pub fn is_write_only(&self) -> (r: bool)
        ensures
            r == self.spec_is_write_only(),
    {
        self.flags & VIRTQ_DESC_F_WRITE != 0
    }

    /// Checks if this descriptor has another descriptor linked after it.
    pub fn has_next(&self) -> (r: bool)
        ensures
            r == self.spec_has_next(),
    {
        self.flags & VIRTQ_DESC_F_NEXT != 0
    }

    /// Decodes the descriptor that sixteen bytes of a descriptor table hold.
    pub fn from_bytes(bytes: &[u8; 16]) -> (r: Descriptor)
        ensures
            r == Descriptor::spec_from_bytes(bytes@),
    {
        let addr: u64 = (bytes[0] as u64) | ((bytes[1] as u64) << 8) | ((bytes[2] as u64) << 16)
            | ((bytes[3] as u64) << 24) | ((bytes[4] as u64) << 32) | ((bytes[5] as u64) << 40)
            | ((bytes[6] as u64) << 48) | ((bytes[7] as u64) << 56);
        let len: u32 = (bytes[8] as u32) | ((bytes[9] as u32) << 8) | ((bytes[10] as u32) << 16)
            | ((bytes[11] as u32) << 24);
        let flags: u16 = (bytes[12] as u16) | ((bytes[13] as u16) << 8);
        let next: u16 = (bytes[14] as u16) | ((bytes[15] as u16) << 8);
        Descriptor { addr, len, flags, next }
    }

    /// Encodes the descriptor as the sixteen bytes of a descriptor table.
    pub fn to_bytes(&self) -> (r: [u8; 16])
        ensures
            r@ == self.spec_to_bytes(),
    {
        let a: u64 = self.addr;
        let l: u32 = self.len;
        let f: u16 = self.flags;
        let n: u16 = self.next;
        let r: [u8; 16] = [
            (a & 0xff) as u8,
            ((a >> 8) & 0xff) as u8,
            ((a >> 16) & 0xff) as u8,
            ((a >> 24) & 0xff) as u8,
            ((a >> 32) & 0xff) as u8,
            ((a >> 40) & 0xff) as u8,
            ((a >> 48) & 0xff) as u8,
            ((a >> 56) & 0xff) as u8,
            (l & 0xff) as u8,
            ((l >> 8) & 0xff) as u8,
            ((l >> 16) & 0xff) as u8,
            ((l >> 24) & 0xff) as u8,
            (f & 0xff) as u8,
            ((f >> 8) & 0xff) as u8,
            (n & 0xff) as u8,
            ((n >> 8) & 0xff) as u8,
        ];
        assert(r@ =~= self.spec_to_bytes());
        r
    }
}

/// Translation of the addresses that a device behind an IOMMU sees into
/// guest physical addresses. What it returns may change while the guest
/// runs, so nothing is stated about it.
pub trait VirtioIommuRemapping {
    /// The guest physical address for `addr`, or nothing where the guest
    /// has mapped none.
    fn remap(&self, addr: u64) -> Option<u64>;
}

/// `addr` itself without a translation, else what the translation gives.
pub fn translate(iommu_mapping_cb: &Option<Arc<dyn VirtioIommuRemapping>>, addr: u64) -> (r:
    Option<u64>)
    ensures
        iommu_mapping_cb is None ==> r == Some(addr),
{
    match iommu_mapping_cb {
        Some(cb) => cb.remap(addr),
        None => Some(addr),
    }
}

/// Whether a chain that stands at `desc` with `ttl` steps left in a table
/// of `table_size` descriptors is valid: the address just behind the
/// buffer, `addr + len`, exists and is mapped, and a link that iteration
/// would follow stays in the table.
pub open spec fn chain_valid(
    regions: Seq<(u64, u64)>,
    desc: Descriptor,
    ttl: u16,
    table_size: u16,
) -> bool {
    &&& spec_checked_offset(regions, desc.addr, desc.len as int) is Some
    &&& !(desc.spec_has_next() && ttl > 1 && desc.next >= table_size)
}

/// Whether entry `index` of the table can be fetched: it is an entry of
/// the table, and one region holds the whole table.
pub open spec fn entry_fetchable(
    regions: Seq<(u64, u64)>,
    desc_table: GuestAddress,
    table_size: u16,
    index: u16,
) -> bool {
    &&& index < table_size
    &&& range_in_one_region(regions, desc_table.0 as int, 16 * table_size)
}

/// Fetches entry `index` of the descriptor table. The entry is read in one
/// piece, as the guest left it.
pub fn fetch_descriptor(
    mem: &GuestMemoryMmap,
    desc_table: GuestAddress,
    table_size: u16,
    index: u16,
) -> (r: Option<Descriptor>)
    ensures
        r is Some <==> entry_fetchable(guest_regions(*mem), desc_table, table_size, index),
{
    if index >= table_size {
        return None;
    }
    let entries: usize = table_size as usize;
    let table_len: usize = 16 * entries;
    match read_table_entry(mem, desc_table, table_len, entries, index as usize) {
        Some(bytes) => Some(Descriptor::from_bytes(&bytes)),
        None => None,
    }
}

/// A virtio descriptor head, not tied to a GuestMemoryMmap.
pub struct DescriptorHead {
    pub desc_table: GuestAddress,
    pub table_size: u16,
    pub index: u16,
    pub iommu_mapping_cb: Option<Arc<dyn VirtioIommuRemapping>>,
}

/// Where iteration over a chain stands: the table's size, the steps left,
/// and the descriptor that comes next.
pub struct ChainState {
    pub table_size: u16,
    pub ttl: u16,
    pub desc: Descriptor,
}

/// Whether iteration goes on after the descriptor at which it stands.
pub open spec fn chain_has_next(s: ChainState) -> bool {
    s.desc.spec_has_next() && s.ttl > 1
}

/// One step of iteration: the state after it and the descriptor it yields.
/// `fetched` is the table entry that the link names, where it could be
/// fetched. An exhausted chain yields nothing. At the end of the chain the
/// last descriptor is yielded and the chain is exhausted. Where the link
/// cannot be followed nothing is yielded and the chain stays as it is.
pub open spec fn chain_step(s: ChainState, fetched: Option<Descriptor>) -> (
    ChainState,
    Option<Descriptor>,
) {
    if s.ttl == 0 {
        (s, None)
    } else if !chain_has_next(s) {
        (ChainState { ttl: 0, ..s }, Some(s.desc))
    } else {
        match fetched {
            Some(d) => (ChainState { ttl: (s.ttl - 1) as u16, desc: d, ..s }, Some(s.desc)),
            None => (s, None),
        }
    }
}

/// A virtio descriptor chain.
#[derive(Clone)]
pub struct DescriptorChain<'a> {
    /// Address of the descriptor table
    pub desc_table: GuestAddress,
    /// Number of descriptors in the table
    pub table_size: u16,
    /// Steps of iteration that are left; it keeps a cycle from running on
    pub ttl: u16,
    /// Index into the descriptor table
    pub index: u16,
    /// Translation of the buffer addresses, if the device sits behind an IOMMU
    pub iommu_mapping_cb: Option<Arc<dyn VirtioIommuRemapping>>,
    /// Reference to guest memory
    pub mem: &'a GuestMemoryMmap,
    /// This particular descriptor
    pub desc: Descriptor,
}

impl<'a> DescriptorChain<'a> {
    /// Where iteration stands.
    pub open spec fn state(&self) -> ChainState {
        ChainState { table_size: self.table_size, ttl: self.ttl, desc: self.desc }
    }

    /// Whether the chain is the one with these parts.
    pub open spec fn is_chain(
        &self,
        mem: &GuestMemoryMmap,
        desc_table: GuestAddress,
        table_size: u16,
        ttl: u16,
        index: u16,
        desc: Descriptor,
        iommu_mapping_cb: Option<Arc<dyn VirtioIommuRemapping>>,
    ) -> bool {
        &&& self.mem == mem
        &&& self.desc_table == desc_table
        &&& self.table_size == table_size
        &&& self.ttl == ttl
        &&& self.index == index
        &&& self.desc == desc
        &&& self.iommu_mapping_cb == iommu_mapping_cb
    }

    /// The chain that stands at `desc`, which was fetched from entry
    /// `index` of the table and whose address has been translated, if that
    /// chain is valid.
    pub fn from_descriptor(
        mem: &'a GuestMemoryMmap,
        desc_table: GuestAddress,
        table_size: u16,
        ttl: u16,
        index: u16,
        desc: Descriptor,
        iommu_mapping_cb: Option<Arc<dyn VirtioIommuRemapping>>,
    ) -> (r: Option<Self>)
        ensures
            r is Some <==> chain_valid(guest_regions(*mem), desc, ttl, table_size),
            r matches Some(c) ==> c.is_chain(
                mem,
                desc_table,
                table_size,
                ttl,
                index,
                desc,
                iommu_mapping_cb,
            ),
    {
        let chain = DescriptorChain { mem, desc_table, table_size, ttl, index, desc, iommu_mapping_cb };
        if chain.is_valid() {
            Some(chain)
        } else {
            None
        }
    }

    /// Reads entry `index` of the table and makes the chain that starts
    /// there with `ttl` steps. There is none where the index is outside the
    /// table, the entry cannot be fetched, its address has no translation,
    /// or the chain is not valid.
    pub fn read_new(
        mem: &'a GuestMemoryMmap,
        desc_table: GuestAddress,
        table_size: u16,
        ttl: u16,
        index: u16,
        iommu_mapping_cb: Option<Arc<dyn VirtioIommuRemapping>>,
    ) -> (r: Option<Self>)
        ensures
            !entry_fetchable(guest_regions(*mem), desc_table, table_size, index) ==> r is None,
            r matches Some(c) ==> {
                &&& c.is_chain(mem, desc_table, table_size, ttl, index, c.desc, iommu_mapping_cb)
                &&& chain_valid(guest_regions(*mem), c.desc, ttl, table_size)
            },
    {
        let mut desc = match fetch_descriptor(mem, desc_table, table_size, index) {
            Some(d) => d,
            None => {
                return None;
            },
        };

        // Translate address if necessary
        match translate(&iommu_mapping_cb, desc.addr) {
            Some(addr) => {
                desc.addr = addr;
            },
            None => {
                return None;
            },
        }

        Self::from_descriptor(mem, desc_table, table_size, ttl, index, desc, iommu_mapping_cb)
    }

    /// The chain that starts at entry `index`, with as many steps as the
    /// table has entries.
    pub fn checked_new(
        mem: &'a GuestMemoryMmap,
        dtable_addr: GuestAddress,
        table_size: u16,
        index: u16,
        iommu_mapping_cb: Option<Arc<dyn VirtioIommuRemapping>>,
    ) -> (r: Option<Self>)
        ensures
            !entry_fetchable(guest_regions(*mem), dtable_addr, table_size, index) ==> r is None,
            r matches Some(c) ==> {
                &&& c.is_chain(
                    mem,
                    dtable_addr,
                    table_size,
                    table_size,
                    index,
                    c.desc,
                    iommu_mapping_cb,
                )
                &&& chain_valid(guest_regions(*mem), c.desc, table_size, table_size)
            },
    {
        Self::read_new(mem, dtable_addr, table_size, table_size, index, iommu_mapping_cb)
    }

    /// Returns a copy of a descriptor referencing a different GuestMemoryMmap object.
    pub fn new_from_head(mem: &'a GuestMemoryMmap, head: DescriptorHead) -> (r: Result<
        DescriptorChain<'a>,
        Error,
    >)
        ensures
            r is Err ==> r == Err::<DescriptorChain<'a>, Error>(Error::InvalidChain),
            !entry_fetchable(guest_regions(*mem), head.desc_table, head.table_size, head.index)
                ==> r is Err,
            r matches Ok(c) ==> {
                &&& c.is_chain(
                    mem,
                    head.desc_table,
                    head.table_size,
                    head.table_size,
                    head.index,
                    c.desc,
                    head.iommu_mapping_cb,
                )
                &&& chain_valid(guest_regions(*mem), c.desc, head.table_size, head.table_size)
            },
    {
        match DescriptorChain::checked_new(
            mem,
            head.desc_table,
            head.table_size,
            head.index,
            head.iommu_mapping_cb,
        ) {
            Some(d) => Ok(d),
            None => Err(Error::InvalidChain),
        }
    }

    /// Whether iteration is over: no step is left, or the link of the
    /// descriptor at which the chain stands cannot be followed.
    pub open spec fn at_end(&self) -> bool {
        self.ttl == 0 || (chain_has_next(self.state()) && !entry_fetchable(
            guest_regions(*self.mem),
            self.desc_table,
            self.table_size,
            self.desc.next,
        ))
    }

    /// Whether `other` walks the same table of the same memory from the
    /// same head with the same translation.
    pub open spec fn same_walk(&self, other: &Self) -> bool {
        &&& self.mem == other.mem
        &&& self.desc_table == other.desc_table
        &&& self.table_size == other.table_size
        &&& self.index == other.index
        &&& self.iommu_mapping_cb == other.iommu_mapping_cb
    }

    /// The chain of the table that an indirect descriptor points at, once
    /// the table's first entry has been read as `desc` and its address
    /// translated. The table has `len / 16` entries, and the chain as many
    /// steps; a table of more than 65535 entries holds no chain.
    pub fn indirect_from_descriptor(&self, desc: Descriptor) -> (r: Result<
        DescriptorChain<'a>,
        Error,
    >)
        ensures
            r is Ok <==> self.desc.len / 16 <= 0xffff && chain_valid(
                guest_regions(*self.mem),
                desc,
                (self.desc.len / 16) as u16,
                (self.desc.len / 16) as u16,
            ),
            r matches Ok(c) ==> c.is_chain(
                self.mem,
                GuestAddress(self.desc.addr),
                (self.desc.len / 16) as u16,
                (self.desc.len / 16) as u16,
                0,
                desc,
                self.iommu_mapping_cb,
            ),
            r matches Err(e) ==> e is InvalidChain,
    {
        let entries: u32 = self.desc.len() / 16;
        if entries > 0xffff {
            return Err(Error::InvalidChain);
        }
        let table_size: u16 = entries as u16;
        match DescriptorChain::from_descriptor(
            self.mem,
            self.desc.addr(),
            table_size,
            table_size,
            0,
            desc,
            clone_remapping(&self.iommu_mapping_cb),
        ) {
            Some(chain) => Ok(chain),
            None => Err(Error::InvalidChain),
        }
    }

    /// The chain of the table that this indirect descriptor points at.
    pub fn new_from_indirect(&self) -> (r: Result<DescriptorChain<'a>, Error>)
        ensures
            r matches Err(Error::InvalidIndirectDescriptor) <==> !self.desc.spec_is_indirect(),
            self.desc.spec_is_indirect() && !(spec_checked_offset(
                guest_regions(*self.mem),
                self.desc.addr,
                16,
            ) is Some && range_mapped(guest_regions(*self.mem), self.desc.addr as int, 16))
                ==> r matches Err(Error::GuestMemoryError),
            r matches Err(e) ==> e is InvalidIndirectDescriptor || e is GuestMemoryError
                || e is InvalidChain,
            r matches Ok(c) ==> {
                &&& self.desc.len / 16 <= 0xffff
                &&& c.is_chain(
                    self.mem,
                    GuestAddress(self.desc.addr),
                    (self.desc.len / 16) as u16,
                    (self.desc.len / 16) as u16,
                    0,
                    c.desc,
                    self.iommu_mapping_cb,
                )
                &&& chain_valid(
                    guest_regions(*self.mem),
                    c.desc,
                    (self.desc.len / 16) as u16,
                    (self.desc.len / 16) as u16,
                )
            },
    {
        if !self.is_indirect() {
            return Err(Error::InvalidIndirectDescriptor);
        }
        let desc_head = self.desc.addr();
        if checked_offset(self.mem, desc_head, 16).is_none() {
            return Err(Error::GuestMemoryError);
        }
        // These reads can't fail unless Guest memory is hopelessly broken.

        let mut desc = match read_bytes16(self.mem, desc_head) {
            Ok(bytes) => Descriptor::from_bytes(&bytes),
            Err(_) => {
                return Err(Error::GuestMemoryError);
            },
        };

        // Translate address if necessary
        match translate(&self.iommu_mapping_cb, desc.addr) {
            Some(addr) => {
                desc.addr = addr;
            },
            None => {
                return Err(Error::GuestMemoryError);
            },
        }

        self.indirect_from_descriptor(desc)
    }

    /// Returns a DescriptorHead that can be used to build a copy of a descriptor
    /// referencing a different GuestMemoryMmap.
    pub fn get_head(&self) -> (r: DescriptorHead)
        ensures
            r.desc_table == self.desc_table,
            r.table_size == self.table_size,
            r.index == self.index,
            r.iommu_mapping_cb == self.iommu_mapping_cb,
    {
        DescriptorHead {
            desc_table: self.desc_table,
            table_size: self.table_size,
            index: self.index,
            iommu_mapping_cb: clone_remapping(&self.iommu_mapping_cb),
        }
    }

    fn is_valid(&self) -> (r: bool)
        ensures
            r == chain_valid(guest_regions(*self.mem), self.desc, self.ttl, self.table_size),
    {
        !(checked_offset(self.mem, self.desc.addr(), self.desc.len as usize).is_none() || (
        self.has_next() && self.desc.next >= self.table_size))
    }

    /// Gets if this descriptor chain has another descriptor chain linked after it.
    pub fn has_next(&self) -> (r: bool)
        ensures
            r == chain_has_next(self.state()),
    {
        self.desc.flags & VIRTQ_DESC_F_NEXT != 0 && self.ttl > 1
    }

    /// If the driver designated this as a write only descriptor.
    ///
    /// If this is false, this descriptor is read only.
    /// Write only means the the emulated device can write and the driver can read.
    pub fn is_write_only(&self) -> (r: bool)
        ensures
            r == self.desc.spec_is_write_only(),
    {
        self.desc.flags & VIRTQ_DESC_F_WRITE != 0
    }

    pub fn is_indirect(&self) -> (r: bool)
        ensures
            r == self.desc.spec_is_indirect(),
    {
        self.desc.flags & VIRTQ_DESC_F_INDIRECT != 0
    }

    /// Get the descriptor index of the chain header
    pub fn index(&self) -> (r: u16)
        ensures
            r == self.index,
    {
        self.index
    }

    /// Return the guest physical address of descriptor buffer
    pub fn addr(&self) -> (r: GuestAddress)
        ensures
            r == GuestAddress(self.desc.addr),
    {
        GuestAddress(self.desc.addr)
    }

    /// Return the length of descriptor buffer
    pub fn len(&self) -> (r: u32)
        ensures
            r == self.desc.len,
    {
        self.desc.len
    }

    /// Return the flags for this descriptor, including next, write and indirect
    /// bits
    pub fn flags(&self) -> (r: u16)
        ensures
            r == self.desc.flags,
    {
        self.desc.flags
    }

    /// Check if this is an empty descriptor.
    pub fn is_empty(&self) -> (r: bool)
        ensures
            r == (self.desc.len == 0),
    {
        self.len() == 0
    }

    /// Returns an iterator that only yields the readable descriptors in the chain.
    pub fn readable(self) -> (r: DescriptorChainRwIter<'a>)
        ensures
            r.chain == self,
            !r.writable,
    {
        DescriptorChainRwIter { chain: self, writable: false }
    }

    /// Returns an iterator that only yields the writable descriptors in the chain.
    pub fn writable(self) -> (r: DescriptorChainRwIter<'a>)
        ensures
            r.chain == self,
            r.writable,
    {
        DescriptorChainRwIter { chain: self, writable: true }
    }

    /// One step of iteration, given the table entry that the link of the
    /// current descriptor names, where it could be fetched.
    pub fn advance(&mut self, fetched: Option<Descriptor>) -> (r: Option<Descriptor>)
        ensures
            (final(self).state(), r) == chain_step(old(self).state(), fetched),
            final(self).same_walk(old(self)),
    {
        if self.ttl == 0 {
            return None;
        }
        let curr = self.desc;
        if !self.has_next() {
            self.ttl = 0
        } else {
            match fetched {
                Some(desc) => {
                    self.desc = desc;
                    self.ttl -= 1;
                },
                None => {
                    return None;
                },
            }
        }
        Some(curr)
    }

    /// Returns the next descriptor in this descriptor chain, if there is one.
    ///
    /// Note that this is distinct from the next descriptor chain returned by
    /// [`AvailIter`](struct.AvailIter.html), which is the head of the next
    /// _available_ descriptor chain.
    ///
    /// A yielded descriptor costs at least one of the steps that are left,
    /// so a chain yields no more descriptors than its table has entries. A
    /// link that leaves the table, or a table that cannot be read, ends the
    /// iteration without a descriptor.
    pub fn next(&mut self) -> (r: Option<Descriptor>)
        ensures
            (final(self).state(), r) == chain_step(
                old(self).state(),
                if entry_fetchable(
                    guest_regions(*old(self).mem),
                    old(self).desc_table,
                    old(self).table_size,
                    old(self).desc.next,
                ) {
                    Some(final(self).desc)
                } else {
                    None
                },
            ),
            final(self).same_walk(old(self)),
            r == if old(self).at_end() {
                None
            } else {
                Some(old(self).desc)
            },
            old(self).at_end() ==> *final(self) == *old(self),
            r is Some ==> final(self).ttl < old(self).ttl,
    {
        if self.ttl == 0 || !self.has_next() {
            return self.advance(None);
        }
        let fetched = fetch_descriptor(self.mem, self.desc_table, self.table_size, self.desc.next);
        self.advance(fetched)
    }
}

/// An iterator for readable or writable descriptors.
pub struct DescriptorChainRwIter<'a> {
    pub chain: DescriptorChain<'a>,
    pub writable: bool,
}

impl<'a> DescriptorChainRwIter<'a> {
    /// Returns the next descriptor in this descriptor chain whose write bit
    /// is as the iterator asks, if there is one. The descriptors before it
    /// are passed over. Where the chain stands at a descriptor of the kind
    /// asked for and is not at its end, that descriptor is returned. There
    /// is none only once the chain is at its end.
    pub fn next(&mut self) -> (r: Option<Descriptor>)
        ensures
            final(self).writable == old(self).writable,
            final(self).chain.same_walk(&old(self).chain),
            final(self).chain.ttl <= old(self).chain.ttl,
            old(self).chain.at_end() ==> r is None && final(self).chain == old(self).chain,
            !old(self).chain.at_end() && old(self).chain.desc.spec_is_write_only() == old(
                self,
            ).writable ==> r == Some(old(self).chain.desc) && (final(self).chain.state(), r)
                == chain_step(
                old(self).chain.state(),
                if chain_has_next(old(self).chain.state()) {
                    Some(final(self).chain.desc)
                } else {
                    None
                },
            ),
            r matches Some(d) ==> d.spec_is_write_only() == old(self).writable,
            r is Some ==> final(self).chain.ttl < old(self).chain.ttl,
            r is None ==> final(self).chain.at_end(),
    {
        loop
            invariant
                self.writable == old(self).writable,
                self.chain.same_walk(&old(self).chain),
                self.chain.ttl <= old(self).chain.ttl,
                self.chain == old(self).chain || (!old(self).chain.at_end() && old(
                    self,
                ).chain.desc.spec_is_write_only() != old(self).writable),
            decreases self.chain.ttl,
        {
            match self.chain.next() {
                Some(v) => {
                    if v.is_write_only() == self.writable {
                        return Some(v);
                    }
                },
                None => {
                    return None;
                },
            }
        }
    }
}

/// A second handle on the same translation.
pub fn clone_remapping(iommu_mapping_cb: &Option<Arc<dyn VirtioIommuRemapping>>) -> (r: Option<
    Arc<dyn VirtioIommuRemapping>,
>)
    ensures
        r == *iommu_mapping_cb,
{
    let copy = match iommu_mapping_cb {
        Some(cb) => Some(cb.clone()),
        None => None,
    };
    copy
}

/// `n + 1` in arithmetic modulo 2^16, as the ring indices count.
pub open spec fn wrapping_next(n: u16) -> u16 {
    if n == 0xffff {
        0
    } else {
        (n + 1) as u16
    }
}

/// Offset in the available ring of the slot that index `next_index` names
/// in a queue of `queue_size` entries.
pub open spec fn avail_slot_offset(next_index: u16, queue_size: u16) -> int {
    4 + (next_index % queue_size) * 2
}

/// Consuming iterator over all available descriptor chain heads in the queue.
pub struct AvailIter<'a, 'b> {
    pub mem: &'a GuestMemoryMmap,
    pub desc_table: GuestAddress,
    pub avail_ring: GuestAddress,
    pub next_index: u16,
    pub last_index: u16,
    pub queue_size: u16,
    pub next_avail: &'b mut u16,
    pub iommu_mapping_cb: Option<Arc<dyn VirtioIommuRemapping>>,
}

impl<'a, 'b> AvailIter<'a, 'b> {
    /// Whether the iterator has nothing more to yield.
    pub open spec fn exhausted(&self) -> bool {
        self.next_index == self.last_index
    }

    /// Whether the slot that the iterator stands at can be read.
    pub open spec fn slot_readable(&self) -> bool {
        &&& self.queue_size != 0
        &&& spec_checked_offset(
            guest_regions(*self.mem),
            self.avail_ring.0,
            avail_slot_offset(self.next_index, self.queue_size),
        ) is Some
        &&& range_mapped(
            guest_regions(*self.mem),
            self.avail_ring.0 + avail_slot_offset(self.next_index, self.queue_size),
            2,
        )
    }

    /// Whether `other` iterates over the same rings of the same memory up
    /// to the same index.
    pub open spec fn same_rings(&self, other: &Self) -> bool {
        &&& self.mem == other.mem
        &&& self.desc_table == other.desc_table
        &&& self.avail_ring == other.avail_ring
        &&& self.last_index == other.last_index
        &&& self.queue_size == other.queue_size
        &&& self.iommu_mapping_cb == other.iommu_mapping_cb
    }

    /// An iterator that yields nothing.
    pub fn new(mem: &'a GuestMemoryMmap, q_next_avail: &'b mut u16) -> (r: AvailIter<'a, 'b>)
        ensures
            r.exhausted(),
            r.mem == mem,
            r.queue_size == 0,
            r.iommu_mapping_cb is None,
            *r.next_avail == *old(q_next_avail),
            *final(r.next_avail) == *final(q_next_avail),
    {
        AvailIter {
            mem,
            desc_table: GuestAddress(0),
            avail_ring: GuestAddress(0),
            next_index: 0,
            last_index: 0,
            queue_size: 0,
            next_avail: q_next_avail,
            iommu_mapping_cb: None,
        }
    }

    /// The end of a step, given the chain that the slot's head index led
    /// to, if any. A chain is yielded and counted: both cursors move on by
    /// one. Without a chain the iteration is over and the queue's cursor
    /// stays.
    pub fn yield_chain(&mut self, chain: Option<DescriptorChain<'a>>) -> (r: Option<
        DescriptorChain<'a>,
    >)
        ensures
            r == chain,
            final(self).same_rings(old(self)),
            *final(final(self).next_avail) == *final(old(self).next_avail),
            r is Some ==> final(self).next_index == wrapping_next(old(self).next_index)
                && *final(self).next_avail == wrapping_next(*old(self).next_avail),
            r is None ==> final(self).exhausted() && *final(self).next_avail == *old(
                self,
            ).next_avail,
    {
        if chain.is_some() {
            self.next_index = self.next_index.wrapping_add(1);
            *self.next_avail = (*self.next_avail).wrapping_add(1);
        } else {
            self.next_index = self.last_index;
        }
        chain
    }

    /// The chain at the next available head, if the driver has offered one
    /// more. With each chain that is yielded the queue's cursor
    /// `next_avail` moves on by one, and it moves at no other time. A slot
    /// that cannot be read, or a head that starts no valid chain, ends the
    /// iteration.
    pub fn next(&mut self) -> (r: Option<DescriptorChain<'a>>)
        ensures
            final(self).same_rings(old(self)),
            *final(final(self).next_avail) == *final(old(self).next_avail),
            r is Some ==> final(self).next_index == wrapping_next(old(self).next_index)
                && *final(self).next_avail == wrapping_next(*old(self).next_avail),
            r is None ==> final(self).exhausted() && *final(self).next_avail == *old(
                self,
            ).next_avail,
            old(self).exhausted() || !old(self).slot_readable() ==> r is None,
            r matches Some(c) ==> {
                &&& c.is_chain(
                    old(self).mem,
                    old(self).desc_table,
                    old(self).queue_size,
                    old(self).queue_size,
                    c.index,
                    c.desc,
                    old(self).iommu_mapping_cb,
                )
                &&& chain_valid(
                    guest_regions(*old(self).mem),
                    c.desc,
                    old(self).queue_size,
                    old(self).queue_size,
                )
                &&& entry_fetchable(
                    guest_regions(*old(self).mem),
                    old(self).desc_table,
                    old(self).queue_size,
                    c.index,
                )
            },
    {
        if self.next_index == self.last_index {
            return None;
        }
        if self.queue_size == 0 {
            return self.yield_chain(None);
        }
        let slot: usize = (self.next_index % self.queue_size) as usize;
        let offset: usize = 4 + slot * 2;
        let avail_addr = match checked_offset(self.mem, self.avail_ring, offset) {
            Some(a) => a,
            None => {
                return self.yield_chain(None);
            },
        };
        // This index is checked below in checked_new
        let desc_index: u16 = match read_u16(self.mem, avail_addr) {
            Ok(ret) => ret,
            Err(_) => {
                return self.yield_chain(None);
            },
        };

        let ret = DescriptorChain::checked_new(
            self.mem,
            self.desc_table,
            self.queue_size,
            desc_index,
            clone_remapping(&self.iommu_mapping_cb),
        );
        self.yield_chain(ret)
    }
}

/// Whether `n` is a power of two.
pub open spec fn is_power_of_two(n: u16) -> bool {
    n == 0x1 || n == 0x2 || n == 0x4 || n == 0x8 || n == 0x10 || n == 0x20 || n == 0x40 || n
        == 0x80 || n == 0x100 || n == 0x200 || n == 0x400 || n == 0x800 || n == 0x1000 || n
        == 0x2000 || n == 0x4000 || n == 0x8000
}

/// A ring of `size` bytes at `base` is taken to fit where the address just
/// behind it exists and is mapped.
pub open spec fn ring_fits(regions: Seq<(u64, u64)>, base: GuestAddress, size: int) -> bool {
    base.0 + size <= u64::MAX && addr_mapped(regions, base.0 + size)
}

/// Bytes of a descriptor table of `size` entries.
pub open spec fn desc_table_bytes(size: u16) -> int {
    16 * size
}

/// Bytes of an available ring of `size` entries: flags, index, the
/// entries, and the used-event field.
pub open spec fn avail_ring_bytes(size: u16) -> int {
    6 + 2 * size
}

/// Bytes of a used ring of `size` entries, as validity takes it: flags,
/// index, the entries, and the available-event field.
pub open spec fn used_ring_bytes(size: u16) -> int {
    6 + 8 * size
}

/// A virtio queue's parameters.
#[derive(Clone)]
pub struct Queue {
    /// The maximal size in elements offered by the device
    pub max_size: u16,
    /// The queue size in elements the driver selected
    pub size: u16,
    /// Indicates if the queue is finished with configuration
    pub ready: bool,
    /// Interrupt vector index of the queue
    pub vector: u16,
    /// Guest physical address of the descriptor table
    pub desc_table: GuestAddress,
    /// Guest physical address of the available ring
    pub avail_ring: GuestAddress,
    /// Guest physical address of the used ring
    pub used_ring: GuestAddress,
    /// Index of the next available entry that the device takes; it wraps
    pub next_avail: u16,
    /// Index of the next used entry that the device fills; it wraps
    pub next_used: u16,
    /// Translation of the addresses, if the device sits behind an IOMMU
    pub iommu_mapping_cb: Option<Arc<dyn VirtioIommuRemapping>>,
    /// VIRTIO_F_RING_EVENT_IDX negotiated
    pub event_idx: bool,
    /// The last used value when using EVENT_IDX
    pub signalled_used: Option<u16>,
}

impl Queue {
    /// The size in use: the driver's size, capped by the device's.
    pub open spec fn spec_actual_size(&self) -> u16 {
        if self.size <= self.max_size {
            self.size
        } else {
            self.max_size
        }
    }

    /// Whether the queue can be used with a memory of these regions: it is
    /// ready, its size is a power of two that the device offers, its three
    /// rings fit, and they are aligned to 16, 2 and 4 bytes.
    pub open spec fn spec_is_valid(&self, regions: Seq<(u64, u64)>) -> bool {
        &&& self.ready
        &&& self.size <= self.max_size
        &&& is_power_of_two(self.size)
        &&& ring_fits(regions, self.desc_table, desc_table_bytes(self.size))
        &&& ring_fits(regions, self.avail_ring, avail_ring_bytes(self.size))
        &&& ring_fits(regions, self.used_ring, used_ring_bytes(self.size))
        &&& self.desc_table.0 & 0xf == 0
        &&& self.avail_ring.0 & 0x1 == 0
        &&& self.used_ring.0 & 0x3 == 0
    }

    /// The queue that `new(max_size)` makes.
    pub open spec fn new_spec(max_size: u16) -> Queue {
        Queue {
            max_size,
            size: max_size,
            ready: false,
            vector: 0,
            desc_table: GuestAddress(0),
            avail_ring: GuestAddress(0),
            used_ring: GuestAddress(0),
            next_avail: 0,
            next_used: 0,
            iommu_mapping_cb: None,
            event_idx: false,
            signalled_used: None,
        }
    }

    /// Constructs an empty virtio queue with the given `max_size`.
    pub fn new(max_size: u16) -> (r: Queue)
        ensures
            r == Queue::new_spec(max_size),
    {
        Queue {
            max_size,
            size: max_size,
            ready: false,
            vector: 0,
            desc_table: GuestAddress(0),
            avail_ring: GuestAddress(0),
            used_ring: GuestAddress(0),
            next_avail: 0,
            next_used: 0,
            iommu_mapping_cb: None,
            event_idx: false,
            signalled_used: None,
        }
    }

    pub fn get_max_size(&self) -> (r: u16)
        ensures
            r == self.max_size,
    {
        self.max_size
    }

    /// The queue with the three ring addresses replaced.
    pub open spec fn with_rings(
        self,
        ready: bool,
        desc_table: GuestAddress,
        avail_ring: GuestAddress,
        used_ring: GuestAddress,
    ) -> Queue {
        Queue { ready, desc_table, avail_ring, used_ring, ..self }
    }

    /// Puts translated ring addresses in place. A ring whose address has no
    /// translation cannot be used: the queue is then not ready, and its
    /// addresses stay.
    pub fn set_translated_rings(
        &mut self,
        desc_table: Option<u64>,
        avail_ring: Option<u64>,
        used_ring: Option<u64>,
    )
        ensures
            *final(self) == match (desc_table, avail_ring, used_ring) {
                (Some(d), Some(a), Some(u)) => old(self).with_rings(
                    old(self).ready,
                    GuestAddress(d),
                    GuestAddress(a),
                    GuestAddress(u),
                ),
                _ => old(self).with_rings(
                    false,
                    old(self).desc_table,
                    old(self).avail_ring,
                    old(self).used_ring,
                ),
            },
    {
        match (desc_table, avail_ring, used_ring) {
            (Some(d), Some(a), Some(u)) => {
                self.desc_table = GuestAddress(d);
                self.avail_ring = GuestAddress(a);
                self.used_ring = GuestAddress(u);
            },
            _ => {
                self.ready = false;
            },
        }
    }

    /// Marks the queue ready or not. A queue that becomes ready behind an
    /// IOMMU has its three ring addresses translated; one that is no
    /// longer ready has them cleared.
    pub fn enable(&mut self, set: bool)
        ensures
            !set ==> *final(self) == old(self).with_rings(
                false,
                GuestAddress(0),
                GuestAddress(0),
                GuestAddress(0),
            ),
            set && old(self).iommu_mapping_cb is None ==> *final(self) == old(self).with_rings(
                true,
                old(self).desc_table,
                old(self).avail_ring,
                old(self).used_ring,
            ),
            set ==> *final(self) == old(self).with_rings(
                final(self).ready,
                final(self).desc_table,
                final(self).avail_ring,
                final(self).used_ring,
            ),
    {
        self.ready = set;

        if set {
            // Translate address of descriptor table and vrings.
            if self.iommu_mapping_cb.is_some() {
                let desc_table = translate(&self.iommu_mapping_cb, self.desc_table.raw_value());
                let avail_ring = translate(&self.iommu_mapping_cb, self.avail_ring.raw_value());
                let used_ring = translate(&self.iommu_mapping_cb, self.used_ring.raw_value());
                self.set_translated_rings(desc_table, avail_ring, used_ring);
            }
        } else {
            self.desc_table = GuestAddress(0);
            self.avail_ring = GuestAddress(0);
            self.used_ring = GuestAddress(0);
        }
    }

    /// Return the actual size of the queue, as the driver may not set up a
    /// queue as big as the device allows.
    pub fn actual_size(&self) -> (r: u16)
        ensures
            r == self.spec_actual_size(),
    {
        if self.size <= self.max_size {
            self.size
        } else {
            self.max_size
        }
    }

    /// Reset the queue to a state that is acceptable for a device reset
    pub fn reset(&mut self)
        ensures
            *final(self) == (Queue {
                ready: false,
                size: old(self).max_size,
                next_avail: 0,
                next_used: 0,
                ..*old(self)
            }),
    {
        self.ready = false;
        self.size = self.max_size;
        self.next_avail = 0;
        self.next_used = 0;
    }

    /// Whether the queue can be used with this memory.
    pub fn is_valid(&self, mem: &GuestMemoryMmap) -> (r: bool)
        ensures
            r == self.spec_is_valid(guest_regions(*mem)),
    {
        let queue_size: usize = self.actual_size() as usize;
        let desc_table = self.desc_table;
        let desc_table_size: usize = 16 * queue_size;
        let avail_ring = self.avail_ring;
        let avail_ring_size: usize = 6 + 2 * queue_size;
        let used_ring = self.used_ring;
        let used_ring_size: usize = 6 + 8 * queue_size;
        proof {
            lemma_power_of_two(self.size);
        }
        if !self.ready {
            false
        } else if self.size > self.max_size || self.size == 0 || (self.size & (self.size - 1))
            != 0 {
            false
        } else if !ring_end_in_range(mem, desc_table, desc_table_size) {
            false
        } else if !ring_end_in_range(mem, avail_ring, avail_ring_size) {
            false
        } else if !ring_end_in_range(mem, used_ring, used_ring_size) {
            false
        } else if desc_table.mask(0xf) != 0 {
            false
        } else if avail_ring.mask(0x1) != 0 {
            false
        } else if used_ring.mask(0x3) != 0 {
            false
        } else {
            true
        }
    }

    /// Goes back one position in the available descriptor chain offered by the driver.
    /// Rust does not support bidirectional iterators. This is the only way to revert the effect
    /// of an iterator increment on the queue.
    pub fn go_to_previous_position(&mut self)
        ensures
            *final(self) == (Queue {
                next_avail: if old(self).next_avail == 0 {
                    0xffff
                } else {
                    (old(self).next_avail - 1) as u16
                },
                ..*old(self)
            }),
    {
        self.next_avail = self.next_avail.wrapping_sub(1);
    }

    /// Whether the sixteen-bit index of the ring at `ring` can be read.
    pub open spec fn index_readable(regions: Seq<(u64, u64)>, ring: GuestAddress) -> bool {
        &&& spec_checked_offset(regions, ring.0, 2) is Some
        &&& range_mapped(regions, ring.0 + 2, 2)
    }

    /// Whether `other` differs from this queue in `next_avail` at most.
    pub open spec fn same_but_next_avail(&self, other: &Queue) -> bool {
        *other == (Queue { next_avail: other.next_avail, ..*self })
    }

    /// A consuming iterator over all available descriptor chain heads offered by the driver.
    ///
    /// It starts at the queue's cursor and ends at the index that the
    /// driver has published. Where that index cannot be read the iterator
    /// yields nothing.
    pub fn iter<'a, 'b>(&'b mut self, mem: &'a GuestMemoryMmap) -> (r: AvailIter<'a, 'b>)
        ensures
            old(self).same_but_next_avail(final(self)),
            final(self).next_avail == *final(r.next_avail),
            *r.next_avail == old(self).next_avail,
            r.mem == mem,
            Queue::index_readable(guest_regions(*mem), old(self).avail_ring) ==> {
                &&& r.desc_table == old(self).desc_table
                &&& r.avail_ring == old(self).avail_ring
                &&& r.next_index == old(self).next_avail
                &&& r.queue_size == old(self).spec_actual_size()
                &&& r.iommu_mapping_cb == old(self).iommu_mapping_cb
            },
            !Queue::index_readable(guest_regions(*mem), old(self).avail_ring) ==> r.exhausted(),
    {
        let queue_size = self.actual_size();
        let avail_ring = self.avail_ring;

        let index_addr = match checked_offset(mem, avail_ring, 2) {
            Some(ret) => ret,
            None => {
                return AvailIter::new(mem, &mut self.next_avail);
            },
        };
        // Note that last_index has no invalid values
        let last_index: u16 = match read_u16(mem, index_addr) {
            Ok(ret) => ret,
            Err(_) => {
                return AvailIter::new(mem, &mut self.next_avail);
            },
        };
        let iommu_mapping_cb = clone_remapping(&self.iommu_mapping_cb);

        AvailIter {
            mem,
            desc_table: self.desc_table,
            avail_ring,
            next_index: self.next_avail,
            last_index,
            queue_size,
            next_avail: &mut self.next_avail,
            iommu_mapping_cb,
        }
    }

    /// Offset in the used ring of the field in which the device tells the
    /// driver how far it has read the available ring.
    pub open spec fn spec_avail_event_offset(&self) -> int {
        4 + self.spec_actual_size() * 8
    }

    /// Offset in the available ring of the field in which the driver tells
    /// the device at which used index it wants to be notified.
    pub open spec fn spec_used_event_offset(&self) -> int {
        4 + self.spec_actual_size() * 2
    }

    /// Offset in the used ring of the available-event field.
    pub fn avail_event_offset(&self) -> (r: usize)
        ensures
            r == self.spec_avail_event_offset(),
    {
        let size: usize = self.actual_size() as usize;
        4 + size * 8
    }

    /// Offset in the available ring of the used-event field.
    pub fn used_event_offset(&self) -> (r: usize)
        ensures
            r == self.spec_used_event_offset(),
    {
        let size: usize = self.actual_size() as usize;
        4 + size * 2
    }

    /// Update avail_event on the used ring with the last index in the avail ring.
    ///
    /// The index of the available ring is read and stored in the field at
    /// `avail_event_offset()` of the used ring, and a release fence
    /// follows. Where the index cannot be read nothing is stored. The
    /// queue itself does not change.
    pub fn update_avail_event(&mut self, mem: &GuestMemoryMmap)
        ensures
            *final(self) == *old(self),
    {
        let index_addr = match checked_offset(mem, self.avail_ring, 2) {
            Some(ret) => ret,
            None => {
                return ;
            },
        };
        // Note that last_index has no invalid values
        let last_index: u16 = match read_u16(mem, index_addr) {
            Ok(ret) => ret,
            Err(_) => {
                return ;
            },
        };

        match checked_offset(mem, self.used_ring, self.avail_event_offset()) {
            Some(a) => {
                let _ = write_u16(mem, last_index, a);
            },
            None => {},
        }

        // This fence ensures the guest sees the value we've just written.
        release_fence();
    }

    /// Whether the used-event field of the available ring can be read.
    pub open spec fn used_event_readable(&self, regions: Seq<(u64, u64)>) -> bool {
        &&& spec_checked_offset(regions, self.avail_ring.0, self.spec_used_event_offset()) is Some
        &&& range_mapped(regions, self.avail_ring.0 + self.spec_used_event_offset(), 2)
    }

    /// Return the value present in the used_event field of the avail ring.
    pub fn get_used_event(&self, mem: &GuestMemoryMmap) -> (r: Option<u16>)
        ensures
            r is Some <==> self.used_event_readable(guest_regions(*mem)),
    {
        let avail_ring = self.avail_ring;
        let used_event_addr = match checked_offset(mem, avail_ring, self.used_event_offset()) {
            Some(a) => a,
            None => {
                return None;
            },
        };

        // This fence ensures we're seeing the latest update from the guest.
        full_fence();
        match read_u16(mem, used_event_addr) {
            Ok(ret) => Some(ret),
            Err(_) => None,
        }
    }

    /// What publishing a used element asks to be stored, for a descriptor
    /// index that the queue has: the element `(id, len)` in the slot of the
    /// used ring that `next_used` names, and then the new `next_used` as
    /// the ring's index. There is none where an address leaves the address
    /// space.
    pub open spec fn spec_used_publication(&self, desc_index: u16, len: u32) -> Option<
        UsedPublication,
    > {
        let slot = self.used_ring.0 + 4 + (self.next_used % self.spec_actual_size()) * 8;
        if desc_index < self.spec_actual_size() && slot + 4 <= u64::MAX {
            Some(
                UsedPublication {
                    elem_addr: GuestAddress(slot as u64),
                    elem: VirtqUsedElem { id: desc_index as u32, len },
                    idx_addr: GuestAddress((self.used_ring.0 + 2) as u64),
                    idx: wrapping_next(self.next_used),
                },
            )
        } else {
            None
        }
    }

    /// What `add_used` stores for these arguments.
    pub fn used_publication(&self, desc_index: u16, len: u32) -> (r: Option<UsedPublication>)
        ensures
            r == self.spec_used_publication(desc_index, len),
    {
        let size: u16 = self.actual_size();
        if desc_index >= size {
            return None;
        }
        let next_used: u64 = (self.next_used % size) as u64;
        let elem_addr = match self.used_ring.checked_add(4 + next_used * 8) {
            Some(a) => a,
            None => {
                return None;
            },
        };
        if elem_addr.0 > u64::MAX - 4 {
            return None;
        }
        Some(
            UsedPublication {
                elem_addr,
                elem: VirtqUsedElem { id: desc_index as u32, len },
                idx_addr: self.used_ring.unchecked_add(2),
                idx: self.next_used.wrapping_add(1),
            },
        )
    }

    /// Whether all that `p` asks to be stored goes to mapped memory.
    pub open spec fn publication_mapped(regions: Seq<(u64, u64)>, p: UsedPublication) -> bool {
        &&& range_mapped(regions, p.elem_addr.0 as int, 4)
        &&& range_mapped(regions, p.elem_addr.0 + 4, 4)
        &&& range_mapped(regions, p.idx_addr.0 as int, 2)
    }

    /// Puts an available descriptor head into the used ring for use by the guest.
    ///
    /// What is stored is `used_publication(desc_index, len)`: first the
    /// element, then, behind a release fence, the ring's index. The result
    /// is the new `next_used`. A descriptor index that the queue does not
    /// have is rejected, and so is a publication that does not go to
    /// mapped memory; the queue then stays as it is.
    pub fn add_used(&mut self, mem: &GuestMemoryMmap, desc_index: u16, len: u32) -> (r: Option<
        u16,
    >)
        ensures
            r is Some <==> (old(self).spec_used_publication(desc_index, len) matches Some(p)
                && Queue::publication_mapped(guest_regions(*mem), p)),
            r matches Some(n) ==> n == wrapping_next(old(self).next_used),
            *final(self) == (Queue {
                next_used: if r is Some {
                    wrapping_next(old(self).next_used)
                } else {
                    old(self).next_used
                },
                ..*old(self)
            }),
    {
        let p = match self.used_publication(desc_index, len) {
            Some(p) => p,
            None => {
                return None;
            },
        };
        if write_u32(mem, p.elem.id, p.elem_addr).is_err() {
            return None;
        }
        if write_u32(mem, p.elem.len, p.elem_addr.unchecked_add(4)).is_err() {
            return None;
        }
        // This fence ensures all descriptor writes are visible before the index update is.

        release_fence();

        if write_u16(mem, p.idx, p.idx_addr).is_err() {
            return None;
        }
        self.next_used = p.idx;

        Some(self.next_used)
    }

    /// Get ring's index from memory.
    pub fn index_from_memory(&self, ring: GuestAddress, mem: &GuestMemoryMmap) -> (r: Result<
        u16,
        Error,
    >)
        ensures
            r is Ok <==> Queue::index_readable(guest_regions(*mem), ring),
            r matches Err(e) ==> {
                &&& e is InvalidOffset || e is InvalidRingIndexFromMemory
                &&& e is InvalidOffset <==> spec_checked_offset(guest_regions(*mem), ring.0, 2)
                    is None
                &&& e matches Error::InvalidOffset(o) ==> o as int == (ring.0 + 2)
                    % 0x1_0000_0000_0000_0000
            },
    {
        let addr = match checked_offset(mem, ring, 2) {
            Some(a) => a,
            None => {
                return Err(Error::InvalidOffset(ring.raw_value().wrapping_add(2)));
            },
        };
        match read_u16(mem, addr) {
            Ok(v) => Ok(v),
            Err(e) => Err(Error::InvalidRingIndexFromMemory(e)),
        }
    }

    /// Get latest index from available ring.
    pub fn avail_index_from_memory(&self, mem: &GuestMemoryMmap) -> (r: Result<u16, Error>)
        ensures
            r is Ok <==> Queue::index_readable(guest_regions(*mem), self.avail_ring),
            r matches Err(e) ==> {
                &&& e is InvalidOffset || e is InvalidRingIndexFromMemory
                &&& e is InvalidOffset <==> spec_checked_offset(
                    guest_regions(*mem),
                    self.avail_ring.0,
                    2,
                ) is None
            },
    {
        self.index_from_memory(self.avail_ring, mem)
    }

    /// Get latest index from used ring.
    pub fn used_index_from_memory(&self, mem: &GuestMemoryMmap) -> (r: Result<u16, Error>)
        ensures
            r is Ok <==> Queue::index_readable(guest_regions(*mem), self.used_ring),
            r matches Err(e) ==> {
                &&& e is InvalidOffset || e is InvalidRingIndexFromMemory
                &&& e is InvalidOffset <==> spec_checked_offset(
                    guest_regions(*mem),
                    self.used_ring.0,
                    2,
                ) is None
            },
    {
        self.index_from_memory(self.used_ring, mem)
    }

    /// Whether the index of the used ring is behind that of the available
    /// ring; the two are compared as plain numbers.
    pub fn available_descriptors(&self, mem: &GuestMemoryMmap) -> (r: Result<bool, Error>)
        ensures
            r is Ok <==> Queue::index_readable(guest_regions(*mem), self.used_ring)
                && Queue::index_readable(guest_regions(*mem), self.avail_ring),
            r matches Err(e) ==> {
                &&& e is InvalidOffset || e is InvalidRingIndexFromMemory
                &&& e is InvalidOffset <==> spec_checked_offset(
                    guest_regions(*mem),
                    if Queue::index_readable(guest_regions(*mem), self.used_ring) {
                        self.avail_ring.0
                    } else {
                        self.used_ring.0
                    },
                    2,
                ) is None
            },
    {
        let used = match self.used_index_from_memory(mem) {
            Ok(v) => v,
            Err(e) => {
                return Err(e);
            },
        };
        let avail = match self.avail_index_from_memory(mem) {
            Ok(v) => v,
            Err(e) => {
                return Err(e);
            },
        };
        Ok(used < avail)
    }

    /// The queue once the question of a notification for `used_idx` has
    /// been answered.
    pub open spec fn after_notification(self, used_idx: u16) -> Queue {
        Queue { signalled_used: Some(used_idx), ..self }
    }

    /// Whether the driver is to be notified of the used index `used_idx`.
    /// Without the event-index feature it always is. With it, the driver is
    /// spared where the used-event field could be read and says so.
    /// Whatever the answer, `used_idx` is recorded as the last index that
    /// was signalled.
    pub fn needs_notification(&mut self, mem: &GuestMemoryMmap, used_idx: u16) -> (r: bool)
        ensures
            *final(self) == old(self).after_notification(used_idx),
            !old(self).used_event_readable(guest_regions(*mem)) ==> r == notification_needed(
                old(self).event_idx,
                old(self).signalled_used,
                None,
                used_idx,
            ),
            old(self).used_event_readable(guest_regions(*mem)) && old(self).event_idx && old(
                self,
            ).signalled_used is Some ==> exists|used_event: u16|
                r == #[trigger] notification_needed(
                    old(self).event_idx,
                    old(self).signalled_used,
                    Some(used_event),
                    used_idx,
                ),
            !old(self).event_idx || old(self).signalled_used is None ==> r,
    {
        let used_event = if self.event_idx && self.signalled_used.is_some() {
            self.get_used_event(mem)
        } else {
            None
        };
        let notify = decide_notification(self.event_idx, self.signalled_used, used_event, used_idx);
        self.signalled_used = Some(used_idx);
        notify
    }

    pub fn set_event_idx(&mut self, enabled: bool)
        ensures
            *final(self) == (Queue { signalled_used: None, event_idx: enabled, ..*old(self) }),
    {
        /* Also reset the last signalled event */
        self.signalled_used = None;
        self.event_idx = enabled;
    }
}

/// An element of the used ring: the head of a chain that the device is
/// done with, and the number of bytes that it wrote.
#[derive(Clone, Copy, Debug, PartialEq, Eq, Structural)]
pub struct VirtqUsedElem {
    pub id: u32,
    pub len: u32,
}

impl Default for VirtqUsedElem {
    fn default() -> (r: VirtqUsedElem)
        ensures
            r == (VirtqUsedElem { id: 0, len: 0 }),
    {
        VirtqUsedElem { id: 0, len: 0 }
    }
}

/// What the device stores to publish one used element.
#[derive(Clone, Copy, Debug, PartialEq, Eq, Structural)]
pub struct UsedPublication {
    /// Where the element goes
    pub elem_addr: GuestAddress,
    /// The element
    pub elem: VirtqUsedElem,
    /// Where the used ring's index stands
    pub idx_addr: GuestAddress,
    /// The new index
    pub idx: u16,
}

/// `a - b` in arithmetic modulo 2^16.
pub open spec fn wrapping_diff(a: u16, b: u16) -> int {
    if a >= b {
        a - b
    } else {
        a - b + 0x1_0000
    }
}

/// Whether the driver is to be notified of the used index `used_idx`,
/// given whether the event-index feature is on, the index that was
/// signalled last, if any, and the used-event field, if it could be read.
/// The driver is spared when `used_idx - used_event - 1 >= used_idx -
/// signalled`, both sides taken modulo 2^16.
pub open spec fn notification_needed(
    event_idx: bool,
    signalled_used: Option<u16>,
    used_event: Option<u16>,
    used_idx: u16,
) -> bool {
    if !event_idx {
        true
    } else {
        match (signalled_used, used_event) {
            (Some(old_idx), Some(used_event)) => !(wrapping_diff(
                wrapping_diff(used_idx, used_event) as u16,
                1,
            ) >= wrapping_diff(used_idx, old_idx)),
            _ => true,
        }
    }
}

/// Decides whether the driver is to be notified.
pub fn decide_notification(
    event_idx: bool,
    signalled_used: Option<u16>,
    used_event: Option<u16>,
    used_idx: u16,
) -> (r: bool)
    ensures
        r == notification_needed(event_idx, signalled_used, used_event, used_idx),
{
    if !event_idx {
        return true;
    }
    let mut notify = true;

    if let Some(old_idx) = signalled_used {
        if let Some(used_event) = used_event {
            if used_idx.wrapping_sub(used_event).wrapping_sub(1) >= used_idx.wrapping_sub(old_idx) {
                notify = false;
            }
        }
    }
    notify
}

/// Asking twice about the same used index leaves the queue as asking once
/// does, and without the event-index feature the answer is to notify both
/// times.
pub proof fn lemma_notification_idempotent(q: Queue, used_idx: u16, used_event: Option<u16>)
    ensures
        q.after_notification(used_idx).after_notification(used_idx) == q.after_notification(
            used_idx,
        ),
        !q.event_idx ==> notification_needed(q.event_idx, q.signalled_used, used_event, used_idx)
            && notification_needed(
            q.after_notification(used_idx).event_idx,
            q.after_notification(used_idx).signalled_used,
            used_event,
            used_idx,
        ),
{
}

/// Whether the address just behind a ring of `size` bytes at `base` exists
/// and is mapped.
fn ring_end_in_range(mem: &GuestMemoryMmap, base: GuestAddress, size: usize) -> (r: bool)
    ensures
        r == ring_fits(guest_regions(*mem), base, size as int),
{
    match base.checked_add(size as u64) {
        Some(end) => address_in_range(mem, end),
        None => false,
    }
}

/// A nonzero `n` has no bit in common with `n - 1` exactly when it is a
/// power of two.
proof fn lemma_power_of_two(n: u16)
    ensures
        n != 0 ==> ((n & ((n - 1) as u16) == 0) <==> is_power_of_two(n)),
        !is_power_of_two(0),
{
    assert(n != 0 ==> ((n & ((n - 1) as u16) == 0) <==> (n == 0x1 || n == 0x2 || n == 0x4 || n
        == 0x8 || n == 0x10 || n == 0x20 || n == 0x40 || n == 0x80 || n == 0x100 || n == 0x200 || n
        == 0x400 || n == 0x800 || n == 0x1000 || n == 0x2000 || n == 0x4000 || n == 0x8000)))
        by (bit_vector);
}

/// The table entry that the link of the current descriptor names, when
/// the table holds `table`.
pub open spec fn linked_entry(table: Seq<Descriptor>, s: ChainState) -> Option<Descriptor> {
    if s.desc.next < s.table_size && s.desc.next < table.len() {
        Some(table[s.desc.next as int])
    } else {
        None
    }
}

/// The descriptors that iteration yields from `s` until it first yields
/// nothing, when the table holds `table` throughout.
pub open spec fn chain_yields(table: Seq<Descriptor>, s: ChainState) -> Seq<Descriptor>
    decreases s.ttl,
{
    if s.ttl == 0 {
        Seq::empty()
    } else {
        let (after, out) = chain_step(s, linked_entry(table, s));
        match out {
            Some(d) => seq![d] + chain_yields(table, after),
            None => Seq::empty(),
        }
    }
}

/// The indices of the entries that the links lead through from entry
/// `index` on, `budget` of them at most.
pub open spec fn linked_path(table: Seq<Descriptor>, index: int, budget: nat) -> Seq<int>
    decreases budget,
{
    if budget == 0 || index < 0 || index >= table.len() {
        Seq::empty()
    } else if table[index].spec_has_next() && budget > 1 {
        seq![index] + linked_path(table, table[index].next as int, (budget - 1) as nat)
    } else {
        seq![index]
    }
}

/// Whether every link in the table names an entry of the table.
pub open spec fn links_stay_in_table(table: Seq<Descriptor>) -> bool {
    forall|i: int|
        0 <= i < table.len() && (#[trigger] table[i]).spec_has_next() ==> table[i].next
            < table.len()
}

/// Iteration yields no more descriptors than it has steps left, whatever
/// the table holds. A chain starts with as many steps as its table has
/// entries.
pub proof fn lemma_chain_yields_bounded(table: Seq<Descriptor>, s: ChainState)
    ensures
        chain_yields(table, s).len() <= s.ttl,
    decreases s.ttl,
{
    if s.ttl != 0 {
        let (after, out) = chain_step(s, linked_entry(table, s));
        if out is Some {
            lemma_chain_yields_bounded(table, after);
        }
    }
}

/// In a table whose links all stay in the table, iterating a chain to its
/// end yields one descriptor for each entry on the path that the links
/// lead through from the head, as far as the steps reach: first the
/// descriptor at which the chain stands, then the entries of the path in
/// their order.
pub proof fn lemma_chain_yields_linked_path(table: Seq<Descriptor>, s: ChainState, head: int)
    requires
        table.len() == s.table_size,
        0 <= head < table.len(),
        links_stay_in_table(table),
        s.desc.flags == table[head].flags,
        s.desc.next == table[head].next,
    ensures
        chain_yields(table, s).len() == linked_path(table, head, s.ttl as nat).len(),
        s.ttl > 0 ==> chain_yields(table, s)[0] == s.desc,
        forall|k: int|
            1 <= k < chain_yields(table, s).len() ==> chain_yields(table, s)[k] == table[linked_path(
                table,
                head,
                s.ttl as nat,
            )[k]],
    decreases s.ttl,
{
    if s.ttl != 0 {
        let (after, out) = chain_step(s, linked_entry(table, s));
        if chain_has_next(s) {
            let next = table[head].next as int;
            assert(table[head].spec_has_next());
            assert(linked_entry(table, s) == Some(table[next]));
            lemma_chain_yields_linked_path(table, after, next);
            let rest = chain_yields(table, after);
            let rest_path = linked_path(table, next, (s.ttl - 1) as nat);
            assert(chain_yields(table, s) == seq![s.desc] + rest);
            assert(linked_path(table, head, s.ttl as nat) == seq![head] + rest_path);
            assert forall|k: int| 1 <= k < chain_yields(table, s).len() implies chain_yields(
                table,
                s,
            )[k] == table[linked_path(table, head, s.ttl as nat)[k]] by {
                assert(chain_yields(table, s)[k] == rest[k - 1]);
                assert(linked_path(table, head, s.ttl as nat)[k] == rest_path[k - 1]);
                if k == 1 {
                    assert(rest[0] == after.desc);
                    assert(rest_path[0] == next);
                }
            }
        } else {
            assert(chain_yields(table, after) =~= Seq::<Descriptor>::empty());
            assert(chain_yields(table, s) =~= seq![s.desc]);
        }
    }
}

/// A descriptor written to a descriptor table and read from it again is
/// the same descriptor.
pub proof fn lemma_descriptor_round_trip(d: Descriptor)
    ensures
        d.spec_to_bytes().len() == 16,
        Descriptor::spec_from_bytes(d.spec_to_bytes()) == d,
{
    let bytes = d.spec_to_bytes();
    lemma_le_u64_of_bytes(d.addr);
    lemma_le_u32_of_bytes(d.len);
    lemma_le_u16_of_bytes(d.flags);
    lemma_le_u16_of_bytes(d.next);
    assert(le_u64_at(bytes, 0) == le_u64_at(le_bytes_u64(d.addr), 0));
    assert(le_u32_at(bytes, 8) == le_u32_at(le_bytes_u32(d.len), 0));
    assert(le_u16_at(bytes, 12) == le_u16_at(le_bytes_u16(d.flags), 0));
    assert(le_u16_at(bytes, 14) == le_u16_at(le_bytes_u16(d.next), 0));
}

/// Sixteen bytes of a descriptor table, read as a descriptor and written
/// again, are the same sixteen bytes.
pub proof fn lemma_descriptor_bytes_round_trip(bytes: Seq<u8>)
    requires
        bytes.len() == 16,
    ensures
        Descriptor::spec_from_bytes(bytes).spec_to_bytes() == bytes,
{
    lemma_bytes_of_le_u64(bytes, 0);
    lemma_bytes_of_le_u32(bytes, 8);
    lemma_bytes_of_le_u16(bytes, 12);
    lemma_bytes_of_le_u16(bytes, 14);
    assert(Descriptor::spec_from_bytes(bytes).spec_to_bytes() =~= bytes.subrange(0, 8)
        + bytes.subrange(8, 12) + bytes.subrange(12, 14) + bytes.subrange(14, 16));
    assert(bytes.subrange(0, 8) + bytes.subrange(8, 12) + bytes.subrange(12, 14) + bytes.subrange(
        14,
        16,
    ) =~= bytes);
}

} // verus!

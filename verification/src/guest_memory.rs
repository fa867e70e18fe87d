//! Access to guest physical memory.
//!
//! The memory itself is a `vm_memory::GuestMemoryMmap`: regions of the
//! guest's physical address space mapped into this process. It is shared
//! with the running guest, so nothing is stated about what a read returns.
//! What is stated is when an access succeeds, which depends on the regions
//! alone; those are fixed when the memory is built.

use vm_memory::Address;
use vm_memory::Bytes;
use vm_memory::GuestMemory;
use vm_memory::GuestMemoryError;
use vm_memory::GuestMemoryMmap;
use vm_memory::VolatileMemory;
use vstd::prelude::*;

verus! {

/// A guest physical address.
#[derive(Clone, Copy, Debug, PartialEq, Eq, Structural)]
pub struct GuestAddress(pub u64);

impl GuestAddress {
    /// The address as an integer.
    pub fn raw_value(&self) -> (r: u64)
        ensures
            r == self.0,
    {
        self.0
    }

    /// The bits of the address that `mask` selects.
    pub fn mask(&self, mask: u64) -> (r: u64)
        ensures
            r == self.0 & mask,
    {
        self.0 & mask
    }

    /// The address `other` bytes further on, unless that leaves the address
    /// space.
    pub fn checked_add(&self, other: u64) -> (r: Option<GuestAddress>)
        ensures
            r == if self.0 + other <= u64::MAX {
                Some(GuestAddress((self.0 + other) as u64))
            } else {
                None
            },
    {
        match self.0.checked_add(other) {
            Some(a) => Some(GuestAddress(a)),
            None => None,
        }
    }

    /// The address `offset` bytes further on, for a caller that knows it to
    /// lie in the address space.
    pub fn unchecked_add(&self, offset: u64) -> (r: GuestAddress)
        requires
            self.0 + offset <= u64::MAX,
        ensures
            r.0 == self.0 + offset,
    {
        GuestAddress(self.0 + offset)
    }
}

#[verifier::external_type_specification]
#[verifier::external_body]
pub struct ExGuestMemoryMmap(GuestMemoryMmap);

#[verifier::external_type_specification]
#[verifier::external_body]
pub struct ExGuestMemoryError(GuestMemoryError);

/// The regions of a guest memory, each as its first address and its length
/// in bytes.
pub uninterp spec fn guest_regions(mem: GuestMemoryMmap) -> Seq<(u64, u64)>;

/// Whether `addr` lies in one of the regions.
pub open spec fn addr_mapped(regions: Seq<(u64, u64)>, addr: int) -> bool {
    exists|i: int|
        0 <= i < regions.len() && (#[trigger] regions[i]).0 <= addr < regions[i].0 + regions[i].1
}

/// Whether `addr` and every one of the `count` bytes from `addr` on lie in
/// the regions; the bytes may lie in several regions that touch.
pub open spec fn range_mapped(regions: Seq<(u64, u64)>, addr: int, count: int) -> bool {
    &&& addr_mapped(regions, addr)
    &&& forall|a: int| addr <= a < addr + count ==> #[trigger] addr_mapped(regions, a)
}

/// Whether `addr` lies in a region that also holds all of the `count`
/// bytes from `addr` on.
pub open spec fn range_in_one_region(regions: Seq<(u64, u64)>, addr: int, count: int) -> bool {
    exists|i: int|
        0 <= i < regions.len() && (#[trigger] regions[i]).0 <= addr < regions[i].0 + regions[i].1
            && addr + count <= regions[i].0 + regions[i].1
}

/// What `checked_offset` returns for a base and an offset.
pub open spec fn spec_checked_offset(regions: Seq<(u64, u64)>, base: u64, offset: int) -> Option<
    GuestAddress,
> {
    if base + offset <= u64::MAX && addr_mapped(regions, base + offset) {
        Some(GuestAddress((base + offset) as u64))
    } else {
        None
    }
}

/// `GuestMemory::address_in_range`: whether a region holds `addr`.
#[verifier::external_body]
pub(crate) fn address_in_range(mem: &GuestMemoryMmap, addr: GuestAddress) -> (r: bool)
    ensures
        r == addr_mapped(guest_regions(*mem), addr.0 as int),
{
    mem.address_in_range(vm_memory::GuestAddress(addr.0))
}

/// `GuestMemory::checked_offset`: the address `offset` bytes after `base`
/// if the sum fits in 64 bits and a region holds it. Neither `base` nor
/// the bytes between are looked at.
#[verifier::external_body]
pub(crate) fn checked_offset(mem: &GuestMemoryMmap, base: GuestAddress, offset: usize) -> (r:
    Option<GuestAddress>)
    ensures
        r == spec_checked_offset(guest_regions(*mem), base.0, offset as int),
{
    match mem.checked_offset(vm_memory::GuestAddress(base.0), offset) {
        Some(a) => Some(GuestAddress(a.raw_value())),
        None => None,
    }
}

/// `Bytes::read_obj` for a `u16`: the two bytes at `addr`, read as a
/// little-endian number. It succeeds exactly when both bytes are mapped.
#[verifier::external_body]
pub(crate) fn read_u16(mem: &GuestMemoryMmap, addr: GuestAddress) -> (r: Result<
    u16,
    GuestMemoryError,
>)
    ensures
        r.is_ok() <==> range_mapped(guest_regions(*mem), addr.0 as int, 2),
{
    match mem.read_obj::<u16>(vm_memory::GuestAddress(addr.0)) {
        Ok(v) => Ok(u16::from_le(v)),
        Err(e) => Err(e),
    }
}

/// `Bytes::read_obj` for sixteen bytes, the size of a descriptor. It
/// succeeds exactly when all of them are mapped.
#[verifier::external_body]
pub(crate) fn read_bytes16(mem: &GuestMemoryMmap, addr: GuestAddress) -> (r: Result<
    [u8; 16],
    GuestMemoryError,
>)
    ensures
        r.is_ok() <==> range_mapped(guest_regions(*mem), addr.0 as int, 16),
{
    mem.read_obj::<[u8; 16]>(vm_memory::GuestAddress(addr.0))
}

/// `GuestMemory::get_slice` over a table of `n` entries of sixteen bytes
/// at `table`, then `VolatileMemory::get_array_ref` and
/// `VolatileArrayRef::load` for entry `index`. The slice is had exactly
/// when one region holds the whole table; `load` panics on an index
/// outside the table, which the precondition rules out.
#[verifier::external_body]
pub(crate) fn read_table_entry(
    mem: &GuestMemoryMmap,
    table: GuestAddress,
    table_len: usize,
    n: usize,
    index: usize,
) -> (r: Option<[u8; 16]>)
    requires
        table_len == 16 * n,
        index < n,
    ensures
        r.is_some() <==> range_in_one_region(
            guest_regions(*mem),
            table.0 as int,
            table_len as int,
        ),
{
    let slice = mem.get_slice(vm_memory::GuestAddress(table.0), table_len).ok()?;
    match slice.get_array_ref::<[u8; 16]>(0, n) {
        Ok(entries) => Some(entries.load(index)),
        Err(_) => None,
    }
}

/// What a `vm_memory::GuestMemoryError` says to the user, as its
/// `Display` writes it.
#[verifier::external_body]
pub(crate) fn error_text(e: &GuestMemoryError) -> String {
    format!("{}", e)
}

/// `Bytes::write_obj` for a `u16`, stored little-endian at `addr`. It
/// succeeds exactly when both bytes are mapped.
#[verifier::external_body]
pub(crate) fn write_u16(mem: &GuestMemoryMmap, val: u16, addr: GuestAddress) -> (r: Result<
    (),
    GuestMemoryError,
>)
    ensures
        r.is_ok() <==> range_mapped(guest_regions(*mem), addr.0 as int, 2),
{
    mem.write_obj::<u16>(val.to_le(), vm_memory::GuestAddress(addr.0))
}

/// `Bytes::write_obj` for a `u64`, stored little-endian at `addr`. It
/// succeeds exactly when all eight bytes are mapped.
#[verifier::external_body]
pub(crate) fn write_u64(mem: &GuestMemoryMmap, val: u64, addr: GuestAddress) -> (r: Result<
    (),
    GuestMemoryError,
>)
    ensures
        r.is_ok() <==> range_mapped(guest_regions(*mem), addr.0 as int, 8),
{
    mem.write_obj::<u64>(val.to_le(), vm_memory::GuestAddress(addr.0))
}

/// `Bytes::write_obj` for a `u32`, stored little-endian at `addr`. It
/// succeeds exactly when all four bytes are mapped.
#[verifier::external_body]
pub(crate) fn write_u32(mem: &GuestMemoryMmap, val: u32, addr: GuestAddress) -> (r: Result<
    (),
    GuestMemoryError,
>)
    ensures
        r.is_ok() <==> range_mapped(guest_regions(*mem), addr.0 as int, 4),
{
    mem.write_obj::<u32>(val.to_le(), vm_memory::GuestAddress(addr.0))
}

} // verus!

//! Register model of an Intel 82093AA I/O APIC.
//!
//! A redirection-table entry is 64 bits wide:
//!
//! | bits  | field                 | access |
//! |-------|-----------------------|--------|
//! | 63-56 | destination           | R/W    |
//! | 55-17 | reserved              |        |
//! | 16    | interrupt mask        | R/W    |
//! | 15    | trigger mode          | R/W    |
//! | 14    | remote IRR            | RO     |
//! | 13    | input pin polarity    | R/W    |
//! | 12    | delivery status       | RO     |
//! | 11    | destination mode      | R/W    |
//! | 10-8  | delivery mode         | R/W    |
//! | 7-0   | vector                | R/W    |

use crate::endian::le_bytes_u32;
use crate::endian::le_u32_at;
use crate::endian::read_le_u32;
use crate::endian::write_le_u32;
use vstd::prelude::*;

verus! {

pub type RedirectionTableEntry = u64;

/// Number of interrupt input pins, and so of redirection-table entries.
pub const NUM_IOAPIC_PINS: usize = 24;

/// Value of the version register: version 0x11, highest entry index 23.
pub const IOAPIC_VERSION_ID: u32 = 0x0017_0011;

pub open spec fn spec_vector(entry: u64) -> u8 {
    (entry & 0xff) as u8
}

pub open spec fn spec_delivery_mode(entry: u64) -> u8 {
    ((entry >> 8) & 0x7) as u8
}

pub open spec fn spec_destination_mode(entry: u64) -> u8 {
    ((entry >> 11) & 0x1) as u8
}

pub open spec fn spec_remote_irr(entry: u64) -> u8 {
    ((entry >> 14) & 0x1) as u8
}

pub open spec fn spec_trigger_mode(entry: u64) -> u8 {
    ((entry >> 15) & 0x1) as u8
}

pub open spec fn spec_interrupt_mask(entry: u64) -> u8 {
    ((entry >> 16) & 0x1) as u8
}

pub open spec fn spec_destination_field_physical(entry: u64) -> u8 {
    ((entry >> 56) & 0xf) as u8
}

pub open spec fn spec_destination_field_logical(entry: u64) -> u8 {
    ((entry >> 56) & 0xff) as u8
}

/// Interrupt vector, bits 7-0.
pub fn vector(entry: RedirectionTableEntry) -> (r: u8)
    ensures
        r == spec_vector(entry),
{
    (entry & 0xffu64) as u8
}

/// Delivery mode, bits 10-8.
pub fn delivery_mode(entry: RedirectionTableEntry) -> (r: u8)
    ensures
        r == spec_delivery_mode(entry),
        r < 8,
{
    assert(((entry >> 8) & 0x7) < 8) by (bit_vector);
    ((entry >> 8) & 0x7u64) as u8
}

/// Destination mode, bit 11: 0 is physical, 1 is logical.
pub fn destination_mode(entry: RedirectionTableEntry) -> (r: u8)
    ensures
        r == spec_destination_mode(entry),
        r == 0 || r == 1,
{
    assert(((entry >> 11) & 0x1) == 0 || ((entry >> 11) & 0x1) == 1) by (bit_vector);
    ((entry >> 11) & 0x1u64) as u8
}

/// Remote IRR, bit 14.
pub fn remote_irr(entry: RedirectionTableEntry) -> (r: u8)
    ensures
        r == spec_remote_irr(entry),
{
    ((entry >> 14) & 0x1u64) as u8
}

/// Trigger mode, bit 15: 0 is edge, 1 is level.
pub fn trigger_mode(entry: RedirectionTableEntry) -> (r: u8)
    ensures
        r == spec_trigger_mode(entry),
        r == 0 || r == 1,
{
    assert(((entry >> 15) & 0x1) == 0 || ((entry >> 15) & 0x1) == 1) by (bit_vector);
    ((entry >> 15) & 0x1u64) as u8
}

/// Interrupt mask, bit 16.
pub fn interrupt_mask(entry: RedirectionTableEntry) -> (r: u8)
    ensures
        r == spec_interrupt_mask(entry),
{
    ((entry >> 16) & 0x1u64) as u8
}

/// Destination in physical mode: the low four bits of the destination field.
pub fn destination_field_physical(entry: RedirectionTableEntry) -> (r: u8)
    ensures
        r == spec_destination_field_physical(entry),
{
    ((entry >> 56) & 0xfu64) as u8
}

/// Destination in logical mode: all eight bits of the destination field.
pub fn destination_field_logical(entry: RedirectionTableEntry) -> (r: u8)
    ensures
        r == spec_destination_field_logical(entry),
{
    ((entry >> 56) & 0xffu64) as u8
}

/// `entry` with the delivery-status bit (bit 12) set to the low bit of `val`.
pub open spec fn with_delivery_status(entry: u64, val: u8) -> u64 {
    (entry & 0xffff_ffff_ffff_efff) | (((val & 0x1) as u64) << 12)
}

/// `entry` with the remote-IRR bit (bit 14) set to the low bit of `val`.
pub open spec fn with_remote_irr(entry: u64, val: u8) -> u64 {
    (entry & 0xffff_ffff_ffff_bfff) | (((val & 0x1) as u64) << 14)
}

/// Sets the delivery-status bit (bit 12) to the low bit of `val`.
pub fn set_delivery_status(entry: &mut RedirectionTableEntry, val: u8)
    ensures
        *final(entry) == with_delivery_status(*old(entry), val),
{
    *entry &= 0xffff_ffff_ffff_efff;
    *entry |= ((val & 0x1) as u64) << 12;
}

/// Sets the remote-IRR bit (bit 14) to the low bit of `val`.
pub fn set_remote_irr(entry: &mut RedirectionTableEntry, val: u8)
    ensures
        *final(entry) == with_remote_irr(*old(entry), val),
{
    *entry &= 0xffff_ffff_ffff_bfff;
    *entry |= ((val & 0x1) as u64) << 14;
}

/// A message-signalled interrupt as the local APICs take it.
#[derive(Clone, Copy, Debug, PartialEq, Eq)]
pub struct MsiMessage {
    /// Message address: 31-20 the fixed base 0xFEE, 19-12 the destination,
    /// 3 the redirection hint, 2 the destination mode.
    pub addr: u32,
    /// Message data: 15 the trigger mode, 14 the level, 10-8 the delivery
    /// mode, 7-0 the vector.
    pub data: u32,
}

#[derive(Clone, Copy, Debug, PartialEq, Eq)]
pub enum Error {
    /// The host refused the interrupt; the value is its error number.
    InterruptFailed(i32),
    /// Invalid destination mode.
    InvalidDestinationMode,
    /// Invalid trigger mode.
    InvalidTriggerMode,
    /// Invalid delivery mode.
    InvalidDeliveryMode,
}

/// Selector of the identification register.
pub const IOAPIC_REG_ID: u8 = 0x00;

/// Selector of the version register.
pub const IOAPIC_REG_VERSION: u8 = 0x01;

/// Selector of the arbitration register.
pub const IOAPIC_REG_ARBITRATION_ID: u8 = 0x02;

/// Offset of the register-select register in the MMIO window.
pub const IOREGSEL_OFF: u8 = 0x0;

/// Offset of the data register in the MMIO window; also the selector of
/// the first redirection-table half.
pub const IOWIN_OFF: u8 = 0x10;

/// Selectors per redirection-table entry.
pub const IOWIN_SCALE: u8 = 0x2;

/// Selector of the last redirection-table half.
pub const REG_MAX_OFFSET: u8 = 0x3f;

/// Destination that the message for `entry` names.
pub open spec fn spec_destination_id(entry: u64) -> u8 {
    if spec_destination_mode(entry) == 0 {
        spec_destination_field_physical(entry)
    } else {
        spec_destination_field_logical(entry)
    }
}

/// Address of the message for `entry`, with the redirection hint set.
pub open spec fn spec_msi_address(entry: u64) -> u32 {
    0xfee0_0000u32 | ((spec_destination_id(entry) as u32) << 12) | (1u32 << 3) | ((
    spec_destination_mode(entry) as u32) << 2)
}

/// Data of the message for `entry`.
pub open spec fn spec_msi_data(entry: u64) -> u32 {
    ((spec_trigger_mode(entry) as u32) << 15) | ((spec_remote_irr(entry) as u32) << 14) | ((
    spec_delivery_mode(entry) as u32) << 8) | (spec_vector(entry) as u32)
}

/// What servicing a pin with this entry asks of the host: nothing when the
/// pin is masked, else the message.
pub open spec fn spec_irq_message(entry: u64) -> Option<MsiMessage> {
    if spec_interrupt_mask(entry) == 1 {
        None
    } else {
        Some(MsiMessage { addr: spec_msi_address(entry), data: spec_msi_data(entry) })
    }
}

/// The entry once the host has accepted its message: a level-triggered
/// entry has remote IRR set, and delivery status is clear.
pub open spec fn rte_after_delivery(entry: u64) -> u64 {
    let armed = if spec_trigger_mode(entry) == 1 {
        with_remote_irr(entry, 1)
    } else {
        entry
    };
    with_delivery_status(armed, 0)
}

/// The entry once the host has answered: accepted by `n > 0` processors,
/// blocked by the guest (`n <= 0`), or failed.
pub open spec fn rte_after_outcome(entry: u64, outcome: Result<i32, i32>) -> u64 {
    match outcome {
        Ok(n) => if n > 0 {
            rte_after_delivery(entry)
        } else {
            entry
        },
        Err(_) => entry,
    }
}

/// The entry after an end of interrupt for `vec`.
pub open spec fn rte_after_eoi(entry: u64, vec: u8) -> u64 {
    if spec_vector(entry) == vec && spec_trigger_mode(entry) == 1 {
        with_remote_irr(entry, 0)
    } else {
        entry
    }
}

/// The entry after the guest wrote `val` to its low half: bits 12 and 14
/// and the high half stay.
pub open spec fn rte_write_low(entry: u64, val: u32) -> u64 {
    (entry & 0xffff_ffff_0000_5000) | ((val as u64) & 0xffff_afff)
}

/// The entry after the guest wrote `val` to its high half.
pub open spec fn rte_write_high(entry: u64, val: u32) -> u64 {
    (entry & 0xffff_ffff) | ((val as u64) << 32)
}

pub open spec fn rte_read_low(entry: u64) -> u32 {
    (entry & 0xffff_ffff) as u32
}

pub open spec fn rte_read_high(entry: u64) -> u32 {
    (entry >> 32) as u32
}

/// Whether `selector` names half of a redirection-table entry.
pub open spec fn selects_entry(selector: u8) -> bool {
    0x10 <= selector <= 0x3f
}

/// Index of the entry that `selector` names.
pub open spec fn selected_index(selector: u8) -> int {
    (selector - 0x10) / 2
}

/// Whether `selector` names the high half of its entry.
pub open spec fn selects_high(selector: u8) -> bool {
    selector & 1 != 0
}

/// Entry `index` after a write of `val` through `selector`.
pub open spec fn rte_after_write(selector: u8, index: int, entry: u64, val: u32) -> u64 {
    if selects_entry(selector) && index == selected_index(selector) {
        if selects_high(selector) {
            rte_write_high(entry, val)
        } else {
            rte_write_low(entry, val)
        }
    } else {
        entry
    }
}

/// Given the selector of a redirection-table half, the entry's index and
/// whether the selector names the high half.
pub fn decode_irq_from_selector(selector: u8) -> (r: (usize, bool))
    requires
        selector >= IOWIN_OFF,
    ensures
        r.0 == selected_index(selector),
        r.1 == selects_high(selector),
{
    (((selector - IOWIN_OFF) / IOWIN_SCALE) as usize, selector & 1 != 0)
}

/// The register file of the I/O APIC: identification, register select and
/// the redirection table.
pub struct Ioapic {
    id: u32,
    reg_sel: u32,
    reg_entries: [RedirectionTableEntry; 24],
}

impl Ioapic {
    /// The identification register.
    pub closed spec fn id_value(&self) -> u32 {
        self.id
    }

    /// The register-select latch.
    pub closed spec fn selector(&self) -> u32 {
        self.reg_sel
    }

    /// Redirection-table entry `i`, for `0 <= i < 24`.
    pub closed spec fn entry(&self, i: int) -> u64 {
        self.reg_entries@[i]
    }

    /// The register that the latch selects, as the device decodes it.
    pub open spec fn selected(&self) -> u8 {
        self.selector() as u8
    }

    /// What a read of the data register returns.
    pub open spec fn spec_ioapic_read(&self) -> u32 {
        let sel = self.selected();
        if sel == 0x01 {
            IOAPIC_VERSION_ID
        } else if sel == 0x00 || sel == 0x02 {
            (self.id_value() & 0xf) << 24
        } else if selects_entry(sel) {
            if selects_high(sel) {
                rte_read_high(self.entry(selected_index(sel)))
            } else {
                rte_read_low(self.entry(selected_index(sel)))
            }
        } else {
            0
        }
    }

    /// What a four-byte read at `offset` of the MMIO window returns.
    pub open spec fn spec_mmio_read(&self, offset: u64) -> u32 {
        if offset as u8 == 0x0 {
            self.selector()
        } else if offset as u8 == 0x10 {
            self.spec_ioapic_read()
        } else {
            0
        }
    }

    /// An I/O APIC after reset: every register is zero.
    pub fn new() -> (r: Ioapic)
        ensures
            r.id_value() == 0,
            r.selector() == 0,
            forall|i: int| 0 <= i < 24 ==> r.entry(i) == 0,
    {
        Ioapic { id: 0, reg_sel: 0, reg_entries: [0u64;24] }
    }

    /// Value of redirection-table entry `irq`.
    pub fn redirection_entry(&self, irq: usize) -> (r: RedirectionTableEntry)
        requires
            irq < 24,
        ensures
            r == self.entry(irq as int),
    {
        self.reg_entries[irq]
    }

    /// A local APIC has finished the interrupt `vec`: every level-triggered
    /// entry with that vector has its remote IRR cleared, which arms the pin
    /// again.
    pub fn end_of_interrupt(&mut self, vec: u8)
        ensures
            final(self).id_value() == old(self).id_value(),
            final(self).selector() == old(self).selector(),
            forall|i: int|
                0 <= i < 24 ==> final(self).entry(i) == rte_after_eoi(old(self).entry(i), vec),
    {
        let mut i: usize = 0;
        while i < NUM_IOAPIC_PINS
            invariant
                i <= 24,
                self.id == old(self).id,
                self.reg_sel == old(self).reg_sel,
                forall|j: int|
                    0 <= j < i ==> self.reg_entries@[j] == rte_after_eoi(
                        old(self).reg_entries@[j],
                        vec,
                    ),
                forall|j: int| i <= j < 24 ==> self.reg_entries@[j] == old(self).reg_entries@[j],
            decreases 24 - i,
        {
            let mut entry: u64 = self.reg_entries[i];
            if vector(entry) == vec && trigger_mode(entry) == 1 {
                set_remote_irr(&mut entry, 0);
            }
            self.reg_entries[i] = entry;
            i += 1;
        }
    }

    /// A device raised pin `irq`. The result is what the host is to inject:
    /// nothing when the pin is masked, else the message of the entry. The
    /// host's answer goes to `complete_irq`.
    pub fn service_irq(&self, irq: usize) -> (r: Result<Option<MsiMessage>, Error>)
        requires
            irq < 24,
        ensures
            r == Ok::<Option<MsiMessage>, Error>(spec_irq_message(self.entry(irq as int))),
    {
        let entry: u64 = self.reg_entries[irq];

        // Don't inject the interrupt if the IRQ is masked
        if interrupt_mask(entry) == 1 {
            return Ok(None);
        }
        // Validate Destination Mode value, and retrieve Destination ID

        let destination_mode: u8 = destination_mode(entry);
        let destination_id: u8 = if destination_mode == 0 {
            destination_field_physical(entry)
        } else if destination_mode == 1 {
            destination_field_logical(entry)
        } else {
            return Err(Error::InvalidDestinationMode);
        };

        // When this bit is set, the message is directed to the processor with
        // the lowest interrupt priority among processors that can receive the
        // interrupt.
        let redirection_hint: u32 = 1;

        // Generate MSI message address
        let address_lo: u32 = 0xfee0_0000u32 | ((destination_id as u32) << 12) | (redirection_hint
            << 3) | ((destination_mode as u32) << 2);

        // Validate Trigger Mode value
        let trigger_mode: u8 = trigger_mode(entry);
        if trigger_mode > 1 {
            return Err(Error::InvalidTriggerMode);
        }
        // Validate Delivery Mode value

        let delivery_mode: u8 = delivery_mode(entry);
        if delivery_mode > 7 {
            return Err(Error::InvalidDeliveryMode);
        }
        // Generate MSI message data

        let data: u32 = ((trigger_mode as u32) << 15) | ((remote_irr(entry) as u32) << 14) | ((
        delivery_mode as u32) << 8) | (vector(entry) as u32);

        Ok(Some(MsiMessage { addr: address_lo, data }))
    }

    /// The host has answered the message of pin `irq`: `Ok` with the number
    /// of processors that took it, or `Err` with its error number. An
    /// accepted message arms remote IRR on a level-triggered entry and
    /// clears delivery status; a count of zero leaves the entry as it was.
    pub fn complete_irq(&mut self, irq: usize, outcome: Result<i32, i32>) -> (r: Result<
        (),
        Error,
    >)
        requires
            irq < 24,
        ensures
            r == match outcome {
                Ok(_) => Ok::<(), Error>(()),
                Err(e) => Err::<(), Error>(Error::InterruptFailed(e)),
            },
            final(self).id_value() == old(self).id_value(),
            final(self).selector() == old(self).selector(),
            final(self).entry(irq as int) == rte_after_outcome(
                old(self).entry(irq as int),
                outcome,
            ),
            forall|i: int| 0 <= i < 24 && i != irq ==> final(self).entry(i) == old(self).entry(i),
    {
        match outcome {
            Ok(ret) => {
                if ret > 0 {
                    let mut entry: u64 = self.reg_entries[irq];
                    // If trigger mode is level sensitive, set the Remote IRR bit.
                    // It will be cleared when the EOI is received.
                    if trigger_mode(entry) == 1 {
                        set_remote_irr(&mut entry, 1);
                    }
                    // Clear the Delivery Status bit
                    set_delivery_status(&mut entry, 0);
                    self.reg_entries[irq] = entry;
                }
                Ok(())
            },
            Err(e) => Err(Error::InterruptFailed(e)),
        }
    }

    /// The guest wrote `val` to the data register.
    pub fn ioapic_write(&mut self, val: u32)
        ensures
            final(self).selector() == old(self).selector(),
            final(self).id_value() == if old(self).selected() == 0x00 {
                (val >> 24) & 0xf
            } else {
                old(self).id_value()
            },
            forall|i: int|
                0 <= i < 24 ==> final(self).entry(i) == rte_after_write(
                    old(self).selected(),
                    i,
                    old(self).entry(i),
                    val,
                ),
            old(self).selected() & 1 == 0 ==> forall|i: int|
                0 <= i < 24 ==> final(self).entry(i) & 0x5000 == old(self).entry(i) & 0x5000,
    {
        let sel: u8 = self.reg_sel as u8;
        if sel == IOAPIC_REG_ID {
            self.id = (val >> 24) & 0xf;
        } else if sel >= IOWIN_OFF && sel <= REG_MAX_OFFSET {
            let (index, is_high_bits) = decode_irq_from_selector(sel);
            let mut entry: u64 = self.reg_entries[index];
            if is_high_bits {
                entry &= 0xffff_ffff;
                entry |= (val as u64) << 32;
            } else {
                // Ensure not to override read-only bits:
                // - Delivery Status (bit 12)
                // - Remote IRR (bit 14)
                let ghost before = entry;
                entry &= 0xffff_ffff_0000_5000;
                entry |= (val as u64) & 0xffff_afff;
                assert(((before & 0xffff_ffff_0000_5000) | ((val as u64) & 0xffff_afff)) & 0x5000
                    == before & 0x5000) by (bit_vector);
            }
            self.reg_entries[index] = entry;
        }
    }

    /// The guest read the data register.
    pub fn ioapic_read(&self) -> (r: u32)
        ensures
            r == self.spec_ioapic_read(),
    {
        let sel: u8 = self.reg_sel as u8;
        if sel == IOAPIC_REG_VERSION {
            IOAPIC_VERSION_ID
        } else if sel == IOAPIC_REG_ID || sel == IOAPIC_REG_ARBITRATION_ID {
            (self.id & 0xf) << 24
        } else if sel >= IOWIN_OFF && sel <= REG_MAX_OFFSET {
            let (index, is_high_bits) = decode_irq_from_selector(sel);
            if is_high_bits {
                (self.reg_entries[index] >> 32) as u32
            } else {
                (self.reg_entries[index] & 0xffff_ffff) as u32
            }
        } else {
            0
        }
    }

    /// A four-byte read of the MMIO window at `offset`: the register-select
    /// register at 0x00, the data register at 0x10. Any other offset reads
    /// as zero. The value is stored little-endian.
    pub fn read(&mut self, _base: u64, offset: u64, data: &mut [u8])
        requires
            old(data)@.len() == 4,
        ensures
            *final(self) == *old(self),
            final(data)@ == le_bytes_u32(old(self).spec_mmio_read(offset)),
    {
        let reg: u8 = offset as u8;
        let value: u32 = if reg == IOREGSEL_OFF {
            self.reg_sel
        } else if reg == IOWIN_OFF {
            self.ioapic_read()
        } else {
            0
        };
        write_le_u32(data, value);
        assert(data@ =~= le_bytes_u32(value));
    }

    /// A four-byte write of the little-endian value in `data` to the MMIO
    /// window at `offset`: the register-select register at 0x00, the data
    /// register at 0x10. A write to any other offset is ignored.
    pub fn write(&mut self, _base: u64, offset: u64, data: &[u8])
        requires
            data@.len() == 4,
        ensures
            final(self).id_value() == if offset as u8 == 0x10 && old(self).selected() == 0x00 {
                (le_u32_at(data@, 0) >> 24) & 0xf
            } else {
                old(self).id_value()
            },
            final(self).selector() == if offset as u8 == 0x0 {
                le_u32_at(data@, 0)
            } else {
                old(self).selector()
            },
            forall|i: int|
                0 <= i < 24 ==> final(self).entry(i) == if offset as u8 == 0x10 {
                    rte_after_write(
                        old(self).selected(),
                        i,
                        old(self).entry(i),
                        le_u32_at(data@, 0),
                    )
                } else {
                    old(self).entry(i)
                },
    {
        let value: u32 = read_le_u32(data);
        let reg: u8 = offset as u8;
        if reg == IOREGSEL_OFF {
            self.reg_sel = value;
        } else if reg == IOWIN_OFF {
            self.ioapic_write(value);
        }
    }
}

/// A guest write to the low half of an entry leaves delivery status
/// (bit 12) and remote IRR (bit 14) as they were.
pub proof fn lemma_write_low_keeps_read_only_bits(entry: u64, val: u32)
    ensures
        rte_write_low(entry, val) & 0x5000 == entry & 0x5000,
        spec_remote_irr(rte_write_low(entry, val)) == spec_remote_irr(entry),
{
    assert(((entry & 0xffff_ffff_0000_5000) | ((val as u64) & 0xffff_afff)) & 0x5000 == entry
        & 0x5000 && ((((entry & 0xffff_ffff_0000_5000) | ((val as u64) & 0xffff_afff)) >> 14)
        & 0x1) == ((entry >> 14) & 0x1)) by (bit_vector);
}

/// Once the host has accepted the message of a level-triggered entry with
/// vector `vec`, remote IRR is set; an end of interrupt for `vec` clears it
/// again and changes nothing else of the entry.
pub proof fn lemma_eoi_clears_remote_irr(entry: u64, vec: u8)
    requires
        spec_trigger_mode(entry) == 1,
        spec_vector(entry) == vec,
    ensures
        spec_remote_irr(rte_after_delivery(entry)) == 1,
        spec_remote_irr(rte_after_eoi(rte_after_delivery(entry), vec)) == 0,
        rte_after_eoi(rte_after_delivery(entry), vec) == rte_after_delivery(entry)
            & 0xffff_ffff_ffff_bfff,
{
    let d = rte_after_delivery(entry);
    assert(d == with_delivery_status(with_remote_irr(entry, 1), 0));
    assert({
        let d0 = (((entry & 0xffff_ffff_ffff_bfff) | (((1u8 & 0x1) as u64) << 14))
            & 0xffff_ffff_ffff_efff) | (((0u8 & 0x1) as u64) << 12);
        &&& ((d0 >> 14) & 0x1) == 1
        &&& ((d0 >> 15) & 0x1) == ((entry >> 15) & 0x1)
        &&& (d0 & 0xff) == (entry & 0xff)
        &&& ((((d0 & 0xffff_ffff_ffff_bfff) | (((0u8 & 0x1) as u64) << 14)) >> 14) & 0x1) == 0
        &&& ((d0 & 0xffff_ffff_ffff_bfff) | (((0u8 & 0x1) as u64) << 14)) == d0
            & 0xffff_ffff_ffff_bfff
    }) by (bit_vector);
}

/// An edge-triggered entry never has remote IRR set by a delivery.
pub proof fn lemma_edge_delivery_keeps_remote_irr(entry: u64)
    requires
        spec_trigger_mode(entry) == 0,
    ensures
        spec_remote_irr(rte_after_delivery(entry)) == spec_remote_irr(entry),
        rte_after_delivery(entry) & 0x1000 == 0,
{
    assert({
        let d0 = (entry & 0xffff_ffff_ffff_efff) | (((0u8 & 0x1) as u64) << 12);
        &&& ((d0 >> 14) & 0x1) == ((entry >> 14) & 0x1)
        &&& d0 & 0x1000 == 0
    }) by (bit_vector);
}

/// Writing an entry as two halves, in either order, and reading the halves
/// back gives the high half as written and the low half as written but for
/// the two read-only bits, which keep their earlier value.
pub proof fn lemma_write_halves_read_back(entry: u64, low: u32, high: u32)
    ensures
        rte_write_high(rte_write_low(entry, low), high) == rte_write_low(
            rte_write_high(entry, high),
            low,
        ),
        rte_read_high(rte_write_high(rte_write_low(entry, low), high)) == high,
        rte_read_low(rte_write_high(rte_write_low(entry, low), high)) & 0xffff_afff == low
            & 0xffff_afff,
        rte_read_low(rte_write_high(rte_write_low(entry, low), high)) & 0x5000 == rte_read_low(
            entry,
        ) & 0x5000,
{
    assert({
        let lo = (entry & 0xffff_ffff_0000_5000) | ((low as u64) & 0xffff_afff);
        let both = (lo & 0xffff_ffff) | ((high as u64) << 32);
        let hi = (entry & 0xffff_ffff) | ((high as u64) << 32);
        let other = (hi & 0xffff_ffff_0000_5000) | ((low as u64) & 0xffff_afff);
        &&& both == other
        &&& (both >> 32) as u32 == high
        &&& ((both & 0xffff_ffff) as u32) & 0xffff_afff == low & 0xffff_afff
        &&& ((both & 0xffff_ffff) as u32) & 0x5000 == ((entry & 0xffff_ffff) as u32) & 0x5000
    }) by (bit_vector);
}

} // verus!

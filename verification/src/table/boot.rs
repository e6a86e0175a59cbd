//! Types of the UEFI boot services.
use crate::data_types::bytes::{
    le_at, le_encode, lemma_le_roundtrip, lemma_pow256_values, read_le,
};
use crate::data_types::{Align, Guid};
use crate::proto::Protocol;
use crate::result::status::{error_bit, spec_is_success};
use crate::result::{Completion, Error, Result, Status};
use vstd::prelude::*;

verus! {

/// The type of a memory range.
///
/// UEFI allows firmwares and operating systems to introduce new memory types
/// in the `0x70000000..=0xFFFFFFFF` range, so the type is an open set of
/// numbers rather than a closed enum.
#[derive(Clone, Copy, Debug, PartialEq, Eq, Structural, PartialOrd, Ord, Hash)]
pub struct MemoryType(pub u32);

#[allow(non_snake_case)]
impl MemoryType {
    /// This memory type is not used.
    pub fn RESERVED() -> (r: MemoryType)
        ensures
            r.0 == 0,
    {
        MemoryType(0)
    }

    /// The code portions of a loaded UEFI application.
    pub fn LOADER_CODE() -> (r: MemoryType)
        ensures
            r.0 == 1,
    {
        MemoryType(1)
    }

    /// The data portions of a loaded UEFI application, and any memory it
    /// allocated.
    pub fn LOADER_DATA() -> (r: MemoryType)
        ensures
            r.0 == 2,
    {
        MemoryType(2)
    }

    /// Code of the boot drivers.
    pub fn BOOT_SERVICES_CODE() -> (r: MemoryType)
        ensures
            r.0 == 3,
    {
        MemoryType(3)
    }

    /// Memory used to store boot drivers' data.
    pub fn BOOT_SERVICES_DATA() -> (r: MemoryType)
        ensures
            r.0 == 4,
    {
        MemoryType(4)
    }

    /// Runtime drivers' code.
    pub fn RUNTIME_SERVICES_CODE() -> (r: MemoryType)
        ensures
            r.0 == 5,
    {
        MemoryType(5)
    }

    /// Runtime services' data.
    pub fn RUNTIME_SERVICES_DATA() -> (r: MemoryType)
        ensures
            r.0 == 6,
    {
        MemoryType(6)
    }

    /// Free usable memory.
    pub fn CONVENTIONAL() -> (r: MemoryType)
        ensures
            r.0 == 7,
    {
        MemoryType(7)
    }

    /// Memory in which errors have been detected.
    pub fn UNUSABLE() -> (r: MemoryType)
        ensures
            r.0 == 8,
    {
        MemoryType(8)
    }

    /// Memory that holds ACPI tables; reclaimable once they are parsed.
    pub fn ACPI_RECLAIM() -> (r: MemoryType)
        ensures
            r.0 == 9,
    {
        MemoryType(9)
    }

    /// Firmware-reserved addresses.
    pub fn ACPI_NON_VOLATILE() -> (r: MemoryType)
        ensures
            r.0 == 10,
    {
        MemoryType(10)
    }

    /// A region used for memory-mapped I/O.
    pub fn MMIO() -> (r: MemoryType)
        ensures
            r.0 == 11,
    {
        MemoryType(11)
    }

    /// Address space used for memory-mapped port I/O.
    pub fn MMIO_PORT_SPACE() -> (r: MemoryType)
        ensures
            r.0 == 12,
    {
        MemoryType(12)
    }

    /// Address space which is part of the processor.
    pub fn PAL_CODE() -> (r: MemoryType)
        ensures
            r.0 == 13,
    {
        MemoryType(13)
    }

    /// Memory region which is usable and is also non-volatile.
    pub fn PERSISTENT_MEMORY() -> (r: MemoryType)
        ensures
            r.0 == 14,
    {
        MemoryType(14)
    }

    /// A custom memory type. Values in `0x80000000..=0xffffffff` are free
    /// for use by an OS loader; any other value is refused.
    pub fn custom(value: u32) -> (r: MemoryType)
        requires
            value >= 0x80000000,
        ensures
            r.0 == value,
    {
        MemoryType(value)
    }
}

/// Task priority level.
#[derive(Clone, Copy, Debug, PartialEq, Eq, Structural, PartialOrd, Ord)]
pub struct Tpl(pub usize);

#[allow(non_snake_case)]
impl Tpl {
    /// Normal task execution level.
    pub fn APPLICATION() -> (r: Tpl)
        ensures
            r.0 == 4,
    {
        Tpl(4)
    }

    /// Async interrupt-style callbacks run at this TPL.
    pub fn CALLBACK() -> (r: Tpl)
        ensures
            r.0 == 8,
    {
        Tpl(8)
    }

    /// Notifications are masked at this level.
    pub fn NOTIFY() -> (r: Tpl)
        ensures
            r.0 == 16,
    {
        Tpl(16)
    }

    /// Highest priority level.
    pub fn HIGH_LEVEL() -> (r: Tpl)
        ensures
            r.0 == 31,
    {
        Tpl(31)
    }
}

/// Type of allocation to perform.
#[derive(Debug, Copy, Clone, PartialEq, Eq, Structural)]
pub enum AllocateType {
    /// Allocate any possible pages.
    AnyPages,
    /// Allocate pages at any address below the given address.
    MaxAddress(usize),
    /// Allocate pages at the specified address.
    Address(usize),
}

/// Flags describing the capabilities of a memory range.
///
/// The model is the set of bits, as a number.
#[derive(Clone, Copy, Debug, PartialEq, Eq, Structural)]
pub struct MemoryAttribute {
    bits: u64,
}

impl View for MemoryAttribute {
    type V = u64;

    closed spec fn view(&self) -> u64 {
        self.bits
    }
}

#[allow(non_snake_case)]
impl MemoryAttribute {
    /// Supports marking as uncacheable.
    pub fn UNCACHEABLE() -> (r: MemoryAttribute)
        ensures
            r@ == 0x1,
    {
        MemoryAttribute { bits: 0x1 }
    }

    /// Supports write-combining.
    pub fn WRITE_COMBINE() -> (r: MemoryAttribute)
        ensures
            r@ == 0x2,
    {
        MemoryAttribute { bits: 0x2 }
    }

    /// Supports write-through.
    pub fn WRITE_THROUGH() -> (r: MemoryAttribute)
        ensures
            r@ == 0x4,
    {
        MemoryAttribute { bits: 0x4 }
    }

    /// Support write-back.
    pub fn WRITE_BACK() -> (r: MemoryAttribute)
        ensures
            r@ == 0x8,
    {
        MemoryAttribute { bits: 0x8 }
    }

    /// Supports marking as uncacheable, exported and supports the "fetch and add" semaphore mechanism.
    pub fn UNCACHABLE_EXPORTED() -> (r: MemoryAttribute)
        ensures
            r@ == 0x10,
    {
        MemoryAttribute { bits: 0x10 }
    }

    /// Supports write-protection.
    pub fn WRITE_PROTECT() -> (r: MemoryAttribute)
        ensures
            r@ == 0x1000,
    {
        MemoryAttribute { bits: 0x1000 }
    }

    /// Supports read-protection.
    pub fn READ_PROTECT() -> (r: MemoryAttribute)
        ensures
            r@ == 0x2000,
    {
        MemoryAttribute { bits: 0x2000 }
    }

    /// Supports disabling code execution.
    pub fn EXECUTE_PROTECT() -> (r: MemoryAttribute)
        ensures
            r@ == 0x4000,
    {
        MemoryAttribute { bits: 0x4000 }
    }

    /// Persistent memory.
    pub fn NON_VOLATILE() -> (r: MemoryAttribute)
        ensures
            r@ == 0x8000,
    {
        MemoryAttribute { bits: 0x8000 }
    }

    /// This memory region is more reliable than other memory.
    pub fn MORE_RELIABLE() -> (r: MemoryAttribute)
        ensures
            r@ == 0x10000,
    {
        MemoryAttribute { bits: 0x10000 }
    }

    /// This memory range can be set as read-only.
    pub fn READ_ONLY() -> (r: MemoryAttribute)
        ensures
            r@ == 0x20000,
    {
        MemoryAttribute { bits: 0x20000 }
    }

    /// This memory must be mapped by the OS when a runtime service is called.
    pub fn RUNTIME() -> (r: MemoryAttribute)
        ensures
            r@ == 0x8000_0000_0000_0000,
    {
        MemoryAttribute { bits: 0x8000_0000_0000_0000 }
    }

    /// No flag set.
    pub fn empty() -> (r: MemoryAttribute)
        ensures
            r@ == 0,
    {
        MemoryAttribute { bits: 0 }
    }

    /// The raw bits.
    pub fn bits(&self) -> (r: u64)
        ensures
            r == self@,
    {
        self.bits
    }

    /// The flags whose bits are set in `bits`; bits that no flag names are
    /// dropped.
    pub fn from_bits_truncate(bits: u64) -> (r: MemoryAttribute)
        ensures
            r@ == bits & 0x800000000003f01f,
    {
        MemoryAttribute { bits: bits & 0x800000000003f01f }
    }

    /// True if every flag set in `other` is set in `self`.
    pub fn contains(&self, other: MemoryAttribute) -> (r: bool)
        ensures
            r == (self@ & other@ == other@),
    {
        self.bits & other.bits == other.bits
    }
}

/// A structure describing a region of memory.
#[derive(Debug, Copy, Clone)]
pub struct MemoryDescriptor {
    /// Type of memory occupying this range.
    pub ty: MemoryType,
    /// Skip 4 bytes as UEFI declares items in structs should be naturally aligned
    pub padding: u32,
    /// Starting physical address.
    pub phys_start: u64,
    /// Starting virtual address.
    pub virt_start: u64,
    /// Number of 4 KiB pages contained in this range.
    pub page_count: u64,
    /// The capability attributes of this memory range.
    pub att: MemoryAttribute,
}

impl Default for MemoryDescriptor {
    /// A reserved range of no pages at address 0, with no attribute.
    fn default() -> (r: MemoryDescriptor)
        ensures
            r.ty.0 == 0 && r.padding == 0 && r.phys_start == 0 && r.virt_start == 0,
            r.page_count == 0 && r.att@ == 0,
    {
        MemoryDescriptor {
            ty: MemoryType::RESERVED(),
            padding: 0,
            phys_start: 0,
            virt_start: 0,
            page_count: 0,
            att: MemoryAttribute::empty(),
        }
    }
}

impl Align for MemoryDescriptor {
    /// Memory descriptors are aligned on 8 bytes.
    fn alignment() -> (r: usize)
        ensures
            r == 8,
    {
        8
    }
}

/// The size of a memory descriptor in bytes, as laid out by the firmware.
pub open spec fn memory_descriptor_size() -> int {
    40
}

/// `d` is the memory descriptor stored at `off` in `s`.
pub open spec fn is_descriptor_at(d: MemoryDescriptor, s: Seq<u8>, off: int) -> bool {
    &&& d.ty.0 == le_at(s, off, 4)
    &&& d.padding == le_at(s, off + 4, 4)
    &&& d.phys_start == le_at(s, off + 8, 8)
    &&& d.virt_start == le_at(s, off + 16, 8)
    &&& d.page_count == le_at(s, off + 24, 8)
    &&& d.att@ == le_at(s, off + 32, 8)
}

/// The fields of a descriptor lie at separate places of its bytes, each a
/// little-endian number: the type in bytes 0 to 3, the padding in 4 to 7,
/// the physical start in 8 to 15, the virtual start in 16 to 23, the page
/// count in 24 to 31 and the attributes in 32 to 39. So the descriptor read
/// from bytes written that way gives back every value written, a virtual
/// start that differs from the physical one included.
pub proof fn lemma_descriptor_layout(
    d: MemoryDescriptor,
    s: Seq<u8>,
    off: int,
    ty: u32,
    padding: u32,
    phys_start: u64,
    virt_start: u64,
    page_count: u64,
    att: u64,
)
    requires
        0 <= off,
        off + 40 <= s.len(),
        s.subrange(off, off + 40) == le_encode(ty as nat, 4) + le_encode(padding as nat, 4)
            + le_encode(phys_start as nat, 8) + le_encode(virt_start as nat, 8) + le_encode(
            page_count as nat,
            8,
        ) + le_encode(att as nat, 8),
        is_descriptor_at(d, s, off),
    ensures
        d.ty.0 == ty,
        d.padding == padding,
        d.phys_start == phys_start,
        d.virt_start == virt_start,
        d.page_count == page_count,
        d.att@ == att,
{
    lemma_pow256_values();
    lemma_le_roundtrip(ty as nat, 4);
    lemma_le_roundtrip(padding as nat, 4);
    lemma_le_roundtrip(phys_start as nat, 8);
    lemma_le_roundtrip(virt_start as nat, 8);
    lemma_le_roundtrip(page_count as nat, 8);
    lemma_le_roundtrip(att as nat, 8);
    let e = s.subrange(off, off + 40);
    assert(s.subrange(off, off + 4) =~= e.subrange(0, 4));
    assert(s.subrange(off + 4, off + 8) =~= e.subrange(4, 8));
    assert(s.subrange(off + 8, off + 16) =~= e.subrange(8, 16));
    assert(s.subrange(off + 16, off + 24) =~= e.subrange(16, 24));
    assert(s.subrange(off + 24, off + 32) =~= e.subrange(24, 32));
    assert(s.subrange(off + 32, off + 40) =~= e.subrange(32, 40));
    assert(e.subrange(0, 4) =~= le_encode(ty as nat, 4));
    assert(e.subrange(4, 8) =~= le_encode(padding as nat, 4));
    assert(e.subrange(8, 16) =~= le_encode(phys_start as nat, 8));
    assert(e.subrange(16, 24) =~= le_encode(virt_start as nat, 8));
    assert(e.subrange(24, 32) =~= le_encode(page_count as nat, 8));
    assert(e.subrange(32, 40) =~= le_encode(att as nat, 8));
}

/// A unique identifier of a memory map.
///
/// If the memory map changes, this value is no longer valid.
#[derive(Debug, Copy, Clone, Eq, PartialEq, Structural)]
pub struct MemoryMapKey(pub usize);

/// An iterator of the descriptors of a memory map: `len` entries of
/// `entry_size` bytes each, at the start of a buffer. An entry may be larger
/// than a descriptor; its first bytes hold the descriptor.
#[derive(Debug)]
pub struct MemoryMapIter<'buf> {
    buffer: &'buf [u8],
    entry_size: usize,
    index: usize,
    len: usize,
}

impl<'buf> MemoryMapIter<'buf> {
    #[verifier::type_invariant]
    spec fn fits(self) -> bool {
        &&& self.entry_size >= memory_descriptor_size()
        &&& self.len * self.entry_size <= self.buffer@.len()
        &&& self.index <= self.len
    }

    /// The buffer of the map.
    pub closed spec fn spec_buffer(&self) -> Seq<u8> {
        self.buffer@
    }

    /// The size of an entry.
    pub closed spec fn spec_entry_size(&self) -> usize {
        self.entry_size
    }

    /// The index of the next entry.
    pub closed spec fn spec_index(&self) -> usize {
        self.index
    }

    /// The number of entries.
    pub closed spec fn spec_len(&self) -> usize {
        self.len
    }

    /// An iterator over the `len` entries of `entry_size` bytes at the start
    /// of `buffer`; `None` unless an entry holds a descriptor and the entries
    /// fit in the buffer.
    pub fn new(buffer: &'buf [u8], entry_size: usize, len: usize) -> (r: Option<Self>)
        ensures
            r is Some <==> (entry_size >= memory_descriptor_size() && len * entry_size
                <= buffer@.len()),
            r matches Some(it) ==> it.spec_buffer() == buffer@ && it.spec_entry_size()
                == entry_size && it.spec_len() == len && it.spec_index() == 0,
    {
        let n = buffer.len();
        if entry_size < 40 {
            return None;
        }
        match len.checked_mul(entry_size) {
            Some(total) => {
                if total <= buffer.len() {
                    Some(MemoryMapIter { buffer, entry_size, index: 0, len })
                } else {
                    None
                }
            },
            None => None,
        }
    }

    /// The number of entries left.
    pub fn size_hint(&self) -> (r: usize)
        ensures
            r == self.spec_len() - self.spec_index(),
    {
        proof {
            use_type_invariant(self);
        }
        self.len - self.index
    }

    /// The next descriptor, if any is left.
    pub fn next(&mut self) -> (r: Option<MemoryDescriptor>)
        ensures
            final(self).spec_buffer() == old(self).spec_buffer(),
            final(self).spec_entry_size() == old(self).spec_entry_size(),
            final(self).spec_len() == old(self).spec_len(),
            old(self).spec_index() < old(self).spec_len() ==> {
                &&& r matches Some(d) && is_descriptor_at(
                    d,
                    old(self).spec_buffer(),
                    old(self).spec_entry_size() * old(self).spec_index(),
                )
                &&& final(self).spec_index() == old(self).spec_index() + 1
            },
            old(self).spec_index() >= old(self).spec_len() ==> r is None && final(self).spec_index()
                == old(self).spec_index(),
    {
        proof {
            use_type_invariant(&*self);
        }
        let n = self.buffer.len();
        if self.index < self.len {
            proof {
                assert(self.entry_size * self.index + self.entry_size <= self.entry_size * self.len)
                    by (nonlinear_arith)
                    requires
                        self.index < self.len,
                ;
                assert(self.entry_size * self.len == self.len * self.entry_size) by (nonlinear_arith);
                lemma_pow256_values();
            }
            let off = self.entry_size * self.index;
            let d = MemoryDescriptor {
                ty: MemoryType(read_le(self.buffer, off, 4) as u32),
                padding: read_le(self.buffer, off + 4, 4) as u32,
                phys_start: read_le(self.buffer, off + 8, 8),
                virt_start: read_le(self.buffer, off + 16, 8),
                page_count: read_le(self.buffer, off + 24, 8),
                att: MemoryAttribute { bits: read_le(self.buffer, off + 32, 8) },
            };
            self.index = self.index + 1;
            Some(d)
        } else {
            None
        }
    }
}

/// The type of handle search to perform.
#[derive(Debug, Copy, Clone)]
pub enum SearchType {
    /// Return all handles present on the system.
    AllHandles,
    /// Returns all handles supporting a certain protocol, specified by its
    /// GUID.
    ByProtocol(Guid),
}

impl SearchType {
    /// Constructs a new search type for a specified protocol.
    pub fn from_proto<P: Protocol>() -> (r: Self)
        ensures
            r matches SearchType::ByProtocol(g) && g@ == P::spec_guid(),
    {
        SearchType::ByProtocol(P::guid())
    }
}

/// The number of bytes of a handle: a pointer.
pub open spec fn handle_size() -> int {
    (usize::BITS / 8) as int
}

/// The arguments of a handle search: its type (0 for all handles, 2 for
/// those that support a protocol) and the GUID of the protocol, if any.
pub fn search_arguments(search_ty: SearchType) -> (r: (u32, Option<Guid>))
    ensures
        search_ty is AllHandles ==> r == (0u32, None::<Guid>),
        search_ty matches SearchType::ByProtocol(g) ==> r == (2u32, Some(g)),
{
    match search_ty {
        SearchType::AllHandles => (0, None),
        SearchType::ByProtocol(guid) => (2, Some(guid)),
    }
}

/// The result of a handle search that reported `status` and `buffer_size`
/// bytes of handles: the number of handles. Asked without a buffer, the
/// search answers that the buffer is too small, and that answer gives the
/// number of handles there are; otherwise a success gives the number of
/// handles found, and anything else is an error.
pub fn locate_handle_result(with_buffer: bool, status: Status, buffer_size: usize) -> (r: Result<
    usize,
>)
    ensures
        !with_buffer && status@ == error_bit() + 5 ==> r == Ok::<Completion<usize>, Error>(
            Completion::Success(((buffer_size as int) / handle_size()) as usize),
        ),
        !(!with_buffer && status@ == error_bit() + 5) && spec_is_success(status) ==> r == Ok::<
            Completion<usize>,
            Error,
        >(Completion::Success(((buffer_size as int) / handle_size()) as usize)),
        !(!with_buffer && status@ == error_bit() + 5) && !spec_is_success(status) ==> (r matches Err(
            e,
        ) && e.spec_status() == status),
{
    let buffer_len = buffer_size / (usize::BITS as usize / 8);
    let too_small = Status::BUFFER_TOO_SMALL();
    proof {
        Status::lemma_view_injective(status, too_small);
    }
    if !with_buffer && status == too_small {
        Ok(Completion::Success(buffer_len))
    } else if status.is_success() {
        Ok(Completion::Success(buffer_len))
    } else {
        Err(Error::new(status, ()))
    }
}

/// Flags describing the type of an UEFI event and its attributes.
///
/// The model is the set of bits, as a number.
#[derive(Clone, Copy, Debug, PartialEq, Eq, Structural)]
pub struct EventType {
    bits: u32,
}

impl View for EventType {
    type V = u32;

    closed spec fn view(&self) -> u32 {
        self.bits
    }
}

#[allow(non_snake_case)]
impl EventType {
    /// The event is a timer event. Timers only function during boot services time.
    pub fn TIMER() -> (r: EventType)
        ensures
            r@ == 0x8000_0000,
    {
        EventType { bits: 0x8000_0000 }
    }

    /// The event is allocated from runtime memory. This must be done if the event is to be signaled after boot services are exited.
    pub fn RUNTIME() -> (r: EventType)
        ensures
            r@ == 0x4000_0000,
    {
        EventType { bits: 0x4000_0000 }
    }

    /// Waiting for or checking the event enqueues the notification function if the event is not already in the signaled state. Mutually exclusive with `NOTIFY_SIGNAL`.
    pub fn NOTIFY_WAIT() -> (r: EventType)
        ensures
            r@ == 0x0000_0100,
    {
        EventType { bits: 0x0000_0100 }
    }

    /// The notification function will be enqueued when the event is signaled. Mutually exclusive with `NOTIFY_WAIT`.
    pub fn NOTIFY_SIGNAL() -> (r: EventType)
        ensures
            r@ == 0x0000_0200,
    {
        EventType { bits: 0x0000_0200 }
    }

    /// The event will be signaled when boot services are exited. This event type should not be combined with any other.
    pub fn SIGNAL_EXIT_BOOT_SERVICES() -> (r: EventType)
        ensures
            r@ == 0x0000_0201,
    {
        EventType { bits: 0x0000_0201 }
    }

    /// The event will be notified when the virtual address map is set. This event type should not be combined with any other.
    pub fn SIGNAL_VIRTUAL_ADDRESS_CHANGE() -> (r: EventType)
        ensures
            r@ == 0x6000_0202,
    {
        EventType { bits: 0x6000_0202 }
    }

    /// No flag set.
    pub fn empty() -> (r: EventType)
        ensures
            r@ == 0,
    {
        EventType { bits: 0 }
    }

    /// The raw bits.
    pub fn bits(&self) -> (r: u32)
        ensures
            r == self@,
    {
        self.bits
    }

    /// The flags whose bits are set in `bits`; bits that no flag names are
    /// dropped.
    pub fn from_bits_truncate(bits: u32) -> (r: EventType)
        ensures
            r@ == bits & 0xe0000303,
    {
        EventType { bits: bits & 0xe0000303 }
    }

    /// True if every flag set in `other` is set in `self`.
    pub fn contains(&self, other: EventType) -> (r: bool)
        ensures
            r == (self@ & other@ == other@),
    {
        self.bits & other.bits == other.bits
    }
}

/// Timer events manipulation
#[derive(Debug, Copy, Clone, PartialEq, Eq, Structural)]
pub enum TimerTrigger {
    /// Cancel event's timer
    Cancel,
    /// The event is to be signaled periodically.
    /// Parameter is the period in 100ns units.
    /// Delay of 0 will be signalled on every timer tick.
    Periodic(u64),
    /// The event is to be signaled once in 100ns units.
    /// Parameter is the delay in 100ns units.
    /// Delay of 0 will be signalled on next timer tick.
    Relative(u64),
}

/// The arguments of a page allocation: the allocation type (0 for any
/// pages, 1 below an address, 2 at an address) and the address.
pub fn allocate_arguments(ty: AllocateType) -> (r: (u32, u64))
    ensures
        ty is AnyPages ==> r == (0u32, 0u64),
        ty matches AllocateType::MaxAddress(a) ==> r == (1u32, a as u64),
        ty matches AllocateType::Address(a) ==> r == (2u32, a as u64),
{
    match ty {
        AllocateType::AnyPages => (0, 0),
        AllocateType::MaxAddress(addr) => (1, addr as u64),
        AllocateType::Address(addr) => (2, addr as u64),
    }
}

/// The arguments of setting a timer: the timer type (0 to cancel, 1 for a
/// periodic timer, 2 for a relative one) and the time in 100ns units.
pub fn timer_arguments(trigger_time: TimerTrigger) -> (r: (u32, u64))
    ensures
        trigger_time is Cancel ==> r == (0u32, 0u64),
        trigger_time matches TimerTrigger::Periodic(t) ==> r == (1u32, t),
        trigger_time matches TimerTrigger::Relative(t) ==> r == (2u32, t),
{
    match trigger_time {
        TimerTrigger::Cancel => (0, 0),
        TimerTrigger::Periodic(hundreds_ns) => (1, hundreds_ns),
        TimerTrigger::Relative(hundreds_ns) => (2, hundreds_ns),
    }
}

/// The length of the data given with a watchdog timer: that of the data,
/// or 0 without data. The code must be above the range the firmware
/// reserves (`0..=0xffff`), and the data must start with a null-terminated
/// string.
pub fn watchdog_data_len(watchdog_code: u64, data: Option<&[u16]>) -> (r: usize)
    requires
        watchdog_code > 0xffff,
        data matches Some(d) ==> d@.contains(0u16),
    ensures
        data is None ==> r == 0,
        data matches Some(d) ==> r == d@.len(),
{
    match data {
        None => 0,
        Some(d) => d.len(),
    }
}

/// The result of waiting for events, when the firmware reported `status`
/// and `index`: the index of the event that was signalled on success; on
/// an invalid parameter, an error that carries the index of the event at
/// fault; any other failure is an error that carries nothing.
pub fn wait_for_event_result(status: Status, index: usize) -> (r: Result<usize, Option<usize>>)
    ensures
        spec_is_success(status) ==> (r matches Ok(Completion::Success(i)) && i == index),
        status@ == error_bit() + 2 ==> (r matches Err(e) && e.spec_status() == status
            && e.spec_data() == Some(index)),
        !spec_is_success(status) && status@ != error_bit() + 2 ==> (r matches Err(e)
            && e.spec_status() == status && e.spec_data() == None::<usize>),
{
    if status.is_success() {
        Ok(Completion::Success(index))
    } else {
        let invalid = Status::INVALID_PARAMETER();
        proof {
            Status::lemma_view_injective(status, invalid);
        }
        if status == invalid {
            Err(Error::new(status, Some(index)))
        } else {
            Err(Error::new(status, None))
        }
    }
}

} // verus!

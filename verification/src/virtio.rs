//! The virtio block device's registers.
use vstd::prelude::*;

use crate::mmio::VirtualDevice;
use crate::mmu::MemoryRange;

verus! {

/// The registers of a virtio block disk.
pub struct VirtioBlockDisk {
    pub used_ring_index: u16,
    pub clock: u64,
    pub device_features: u64,  // read only
    pub device_features_sel: u32,  // write only
    pub driver_features: u32,  // write only
    pub _driver_features_sel: u32,  // write only
    pub guest_page_size: u32,  // write only
    pub queue_select: u32,  // write only
    pub queue_size: u32,  // write only
    pub queue_align: u32,  // write only
    pub queue_pfn: u32,  // read and write
    pub queue_notify: u32,  // write only
    pub interrupt_status: u32,  // read only
    pub status: u32,  // read and write
    pub notify_clocks: Vec<u64>,
    pub contents: Vec<u64>,
}

/// The virtio device mapped at `range`.
pub struct VIRTIO {
    pub range: MemoryRange,
    pub device: VirtioBlockDisk,
}

impl VIRTIO {
    /// Whether every register is zero but the queue alignment, 0x1000.
    pub open spec fn is_reset(&self) -> bool {
        &&& self.device.used_ring_index == 0
        &&& self.device.clock == 0
        &&& self.device.device_features == 0
        &&& self.device.device_features_sel == 0
        &&& self.device.driver_features == 0
        &&& self.device._driver_features_sel == 0
        &&& self.device.guest_page_size == 0
        &&& self.device.queue_select == 0
        &&& self.device.queue_size == 0
        &&& self.device.queue_align == 0x1000
        &&& self.device.queue_pfn == 0
        &&& self.device.queue_notify == 0
        &&& self.device.status == 0
        &&& self.device.interrupt_status == 0
        &&& self.device.notify_clocks@ == Seq::<u64>::empty()
        &&& self.device.contents@ == Seq::<u64>::empty()
    }

    /// A device at `range` with every register zero but the queue alignment, 0x1000.
    pub fn create(range: MemoryRange) -> (v: VIRTIO)
        ensures
            v.range == range,
            v.is_reset(),
    {
        VIRTIO {
            range,
            device: VirtioBlockDisk {
                used_ring_index: 0,
                clock: 0,
                device_features: 0,
                device_features_sel: 0,
                driver_features: 0,
                _driver_features_sel: 0,
                guest_page_size: 0,
                queue_select: 0,
                queue_size: 0,
                queue_align: 0x1000,  // xv6 seems to expect this default value
                queue_pfn: 0,
                queue_notify: 0,
                status: 0,
                interrupt_status: 0,
                notify_clocks: Vec::new(),
                contents: Vec::new(),
            },
        }
    }

    /// Whether the device raises its interrupt: its interrupt status is not zero.
    pub fn is_interrupting(&self) -> (b: bool)
        ensures
            b == (self.device.interrupt_status != 0),
    {
        self.device.interrupt_status != 0
    }
}

impl VirtualDevice for VIRTIO {
    open spec fn device_range(&self) -> MemoryRange {
        self.range
    }

    fn name(&self) -> (s: &str) {
        self.range.name.as_str()
    }

    fn includes(&self, addr: u64) -> (b: bool) {
        self.range.includes(addr)
    }
}

} // verus!

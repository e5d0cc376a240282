use rriscv::device_tree::{contains_reg, node_name, scan_device_table, unit_address, DtbItem};
use rriscv::mmu::MMU;
use rriscv::numerals::parse_u64_radix;

fn begin(name: &str) -> DtbItem {
    DtbItem::BeginNode { name: name.to_string() }
}

fn prop(name: &str, value: Vec<u8>) -> DtbItem {
    DtbItem::Property { name: name.to_string(), value }
}

fn reg(address: u64, size: u64) -> Vec<u8> {
    let mut v = address.to_be_bytes().to_vec();
    v.extend_from_slice(&size.to_be_bytes());
    v
}

#[test]
fn node_names_and_unit_addresses() {
    assert_eq!(node_name("uart@10000000"), "uart");
    assert_eq!(unit_address("uart@10000000"), "10000000");
    assert_eq!(node_name("cpus"), "cpus");
    assert_eq!(unit_address("cpus"), "");
    assert_eq!(unit_address("a@b@c"), "b");
    assert!(contains_reg("reg"));
    assert!(contains_reg("reg-shift"));
    assert!(!contains_reg("re"));
    assert!(!contains_reg("compatible"));
}

#[test]
fn numbers_in_digits() {
    assert_eq!(parse_u64_radix("80000000", 16), Some(0x8000_0000));
    assert_eq!(parse_u64_radix("+Ff", 16), Some(255));
    assert_eq!(parse_u64_radix("", 16), None);
    assert_eq!(parse_u64_radix("+", 16), None);
    assert_eq!(parse_u64_radix("12g", 16), None);
    assert_eq!(parse_u64_radix("ffffffffffffffff", 16), Some(u64::MAX));
    assert_eq!(parse_u64_radix("10000000000000000", 16), None);
    assert_eq!(parse_u64_radix("1234", 10), Some(1234));
    assert_eq!(parse_u64_radix("12a", 10), None);
}

#[test]
fn device_table_from_items() {
    let items = vec![
        begin(""),
        prop("#address-cells", vec![0, 0, 0, 2]),
        begin("memory@80000000"),
        prop("device_type", b"memory\0".to_vec()),
        prop("reg", reg(0x8000_0000, 0x800_0000)),
        DtbItem::EndNode,
        begin("cpus"),
        DtbItem::EndNode,
        begin("uart@10000000"),
        prop("reg", reg(0x1000_0000, 0x100)),
        DtbItem::EndNode,
        begin("low@1000"),
        DtbItem::EndNode,
        begin("clint@2000000"),
        prop("reg", reg(0x200_0000, 0x1_0000)),
        DtbItem::EndNode,
        DtbItem::EndNode,
    ];
    let table = scan_device_table(&items).unwrap();
    let entries: Vec<(String, u64, u64)> =
        table.iter().map(|r| (r.name.clone(), r.start, r.end)).collect();
    assert_eq!(
        entries,
        vec![
            ("memory".to_string(), 0x8000_0000, 0x8800_0000),
            ("uart".to_string(), 0x1000_0000, 0x1000_0100),
            ("clint".to_string(), 0x200_0000, 0x201_0000),
        ]
    );
    assert_eq!(MMU::parse_dtb(&items).len(), 3);
}

#[test]
fn device_table_keeps_the_last_size() {
    // A device without its own reg property takes the size read last.
    let items = vec![
        begin("a@2000"),
        prop("reg", reg(0x2000, 0x10)),
        begin("b@3000"),
        begin("c@ffffffffffffffff"),
    ];
    let table = scan_device_table(&items).unwrap();
    assert_eq!((table[1].start, table[1].end), (0x3000, 0x3010));
    // The end saturates.
    assert_eq!((table[2].start, table[2].end), (u64::MAX, u64::MAX));
}

#[test]
fn device_table_errors() {
    assert!(scan_device_table(&vec![begin("memory@nothex")]).is_none());
    assert!(scan_device_table(&vec![begin("memory@8000"), prop("reg", vec![0; 8])]).is_none());
    assert!(scan_device_table(&vec![begin("memory@8000"), begin("regulator")]).is_none());
    // A reg item outside any device is ignored.
    assert_eq!(scan_device_table(&vec![prop("reg", vec![])]).unwrap().len(), 0);
}

/// A flattened device tree blob with the given struct and strings blocks.
fn blob(structure: &[u8], strings: &[u8]) -> Vec<u8> {
    let header = 40u32;
    let rsv = 16u32;
    let struct_off = header + rsv;
    let strings_off = struct_off + structure.len() as u32;
    let total = strings_off + strings.len() as u32;
    let mut b = Vec::new();
    for word in [
        0xd00d_feed,
        total,
        struct_off,
        strings_off,
        header,
        17,
        16,
        0,
        strings.len() as u32,
        structure.len() as u32,
    ] {
        b.extend_from_slice(&u32::to_be_bytes(word));
    }
    b.extend_from_slice(&[0; 16]);
    b.extend_from_slice(structure);
    b.extend_from_slice(strings);
    b
}

fn begin_token(s: &mut Vec<u8>, name: &str) {
    s.extend_from_slice(&1u32.to_be_bytes());
    s.extend_from_slice(name.as_bytes());
    s.push(0);
    while s.len() % 4 != 0 {
        s.push(0);
    }
}

fn reg_token(s: &mut Vec<u8>, address: u64, size: u64) {
    s.extend_from_slice(&3u32.to_be_bytes());
    s.extend_from_slice(&16u32.to_be_bytes());
    s.extend_from_slice(&0u32.to_be_bytes());
    s.extend_from_slice(&reg(address, size));
}

fn end_token(s: &mut Vec<u8>) {
    s.extend_from_slice(&2u32.to_be_bytes());
}

#[test]
fn memory_system_from_a_device_tree_blob() {
    let mut s = Vec::new();
    begin_token(&mut s, "");
    for (name, address, size) in [
        ("memory@80000000", 0x8000_0000u64, 0x1000u64),
        ("uart@10000000", 0x1000_0000, 0x100),
        ("interrupt-controller@c000000", 0xc00_0000, 0x40_0000),
        ("clint@2000000", 0x200_0000, 0x1000),
        ("virtio_mmio@10001000", 0x1000_1000, 0x1000),
    ] {
        begin_token(&mut s, name);
        reg_token(&mut s, address, size);
        end_token(&mut s);
    }
    end_token(&mut s);
    s.extend_from_slice(&9u32.to_be_bytes());
    let bytes = blob(&s, b"reg\0");
    // The reader wants the blob aligned to 8 bytes, which the allocator gives a vector of
    // this size.
    assert_eq!(bytes.as_ptr() as usize % 8, 0);
    let mmu = MMU::create(&bytes).unwrap();
    assert_eq!(mmu.memory.range.start, 0x8000_0000);
    assert_eq!(mmu.memory.range.end, 0x8000_1000);
    assert_eq!(mmu.uart.range.name, "uart");
    assert_eq!(mmu.plic.range.end, 0xc40_0000);
    assert_eq!(mmu.device_table.len(), 5);
}

#[test]
fn memory_system_needs_a_device_tree() {
    assert!(MMU::create(&[0u8; 64]).is_none());
}

fn machine_items(devices: usize) -> Vec<DtbItem> {
    let mut items = vec![begin("")];
    for (name, start, size) in [
        ("memory@80000000", 0x8000_0000u64, 0x1000u64),
        ("uart@10000000", 0x1000_0000, 0x100),
        ("interrupt-controller@c000000", 0xc00_0000, 0x60_0000),
        ("clint@2000000", 0x200_0000, 0x1_0000),
        ("virtio_mmio@10001000", 0x1000_1000, 0x1000),
    ]
    .into_iter()
    .take(devices)
    {
        items.push(begin(name));
        items.push(prop("reg", reg(start, size)));
        items.push(DtbItem::EndNode);
    }
    items.push(DtbItem::EndNode);
    items
}

#[test]
fn memory_system_from_structure_items() {
    let mmu = MMU::from_dtb_items(&machine_items(5)).unwrap();
    assert_eq!(mmu.device_table.len(), 5);
    assert_eq!(mmu.memory.range.start, 0x8000_0000);
    assert_eq!(mmu.memory.range.end, 0x8000_1000);
    assert_eq!(mmu.clint.range.start, 0x200_0000);
    // Without the virtio disk the memory system cannot be set up.
    assert!(MMU::from_dtb_items(&machine_items(4)).is_none());
    // Items that do not close their nodes give no device table.
    assert!(MMU::from_dtb_items(&vec![begin("uart@10000000"), prop("reg", vec![1, 2])]).is_none());
}

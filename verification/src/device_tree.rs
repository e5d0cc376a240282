//! The device table: the memory-mapped devices a flattened device tree names, with the
//! physical address range of each.
use vstd::prelude::*;
use vstd::string::StrSliceExecFns;

use crate::mmu::MemoryRange;
use crate::numerals::{parse_radix, parse_u64_radix};

verus! {

/// A structure item of a flattened device tree.
pub enum DtbItem {
    BeginNode { name: String },
    Property { name: String, value: Vec<u8> },
    EndNode,
}

/// The structure items of the device tree blob `blob`, up to the first one that cannot be
/// read.
pub uninterp spec fn dtb_struct_items(blob: Seq<u8>) -> Seq<DtbItem>;

/// Reads a device tree blob with `dtb::Reader::read` and collects its structure items with
/// `struct_items`. The reader refuses a blob that is not aligned to 8 bytes in memory, so
/// whether it returns `None` is not stated; when it returns the items, they are those of the
/// blob's contents.
#[verifier::external_body]
pub(crate) fn read_struct_items(blob: &[u8]) -> (r: Option<Vec<DtbItem>>)
    ensures
        r matches Some(items) ==> items@ == dtb_struct_items(blob@),
{
    let reader = dtb::Reader::read(blob).ok()?;
    let mut items = Vec::new();
    for item in reader.struct_items() {
        items.push(match item {
            dtb::StructItem::BeginNode { name } => DtbItem::BeginNode { name: name.to_string() },
            dtb::StructItem::Property { name, value } => DtbItem::Property {
                name: name.to_string(),
                value: value.to_vec(),
            },
            dtb::StructItem::EndNode => DtbItem::EndNode,
        });
    }
    Some(items)
}

/// The name of a node or property; empty for the end of a node.
pub open spec fn item_name(item: DtbItem) -> Seq<char> {
    match item {
        DtbItem::BeginNode { name } => name@,
        DtbItem::Property { name, .. } => name@,
        DtbItem::EndNode => Seq::empty(),
    }
}

/// The characters of `s` before its first `@` (all of `s` when it has none).
pub open spec fn before_at(s: Seq<char>) -> Seq<char>
    decreases s.len(),
{
    if s.len() == 0 {
        s
    } else if s[0] == '@' {
        Seq::empty()
    } else {
        seq![s[0]] + before_at(s.drop_first())
    }
}

/// The characters of `s` after its first `@` (nothing when it has none).
pub open spec fn after_at(s: Seq<char>) -> Seq<char>
    decreases s.len(),
{
    if s.len() == 0 {
        s
    } else if s[0] == '@' {
        s.drop_first()
    } else {
        after_at(s.drop_first())
    }
}

/// The node name of a node: its name up to the first `@`.
pub open spec fn node_name_of(name: Seq<char>) -> Seq<char> {
    before_at(name)
}

/// The unit address of a node: the part of its name between the first `@` and the next one.
pub open spec fn unit_address_of(name: Seq<char>) -> Seq<char> {
    before_at(after_at(name))
}

/// Whether `pat` occurs in `s` at position `i`.
pub open spec fn occurs_at(s: Seq<char>, pat: Seq<char>, i: int) -> bool {
    0 <= i && i + pat.len() <= s.len() && s.subrange(i, i + pat.len()) == pat
}

/// Whether `pat` occurs in `s`.
pub open spec fn occurs(s: Seq<char>, pat: Seq<char>) -> bool {
    exists|i: int| #[trigger] occurs_at(s, pat, i)
}

/// The big-endian 32-bit number in bytes 12 to 15 of `value`: the size cell of a `reg`
/// property with two address and two size cells.
pub open spec fn reg_size(value: Seq<u8>) -> u32 {
    ((value[12] as u32) << 24u32) | ((value[13] as u32) << 16u32) | ((value[14] as u32) << 8u32)
        | (value[15] as u32)
}

/// `a + b`, or the largest `u64` where the sum does not fit.
pub open spec fn saturating_sum(a: u64, b: u64) -> u64 {
    if a + b > u64::MAX {
        u64::MAX
    } else {
        (a + b) as u64
    }
}

/// A device of the table: its name, its first address and its last.
pub type DeviceEntry = (Seq<char>, u64, u64);

/// What reading the items has gathered: the devices completed, the device being read (its
/// name and address) and the last size read.
pub struct TableScan {
    pub devs: Seq<DeviceEntry>,
    pub curr: Option<(Seq<char>, u64)>,
    pub size: u32,
}

/// The devices gathered, with the one being read completed.
pub open spec fn completed(scan: TableScan) -> Seq<DeviceEntry> {
    match scan.curr {
        Some((name, start)) => scan.devs.push((name, start, saturating_sum(start, scan.size as u64))),
        None => scan.devs,
    }
}

/// One item read into the scan: a node whose name has an `@` completes the device being read
/// and starts a new one at its unit address when that is above 0x1000; a `reg` item inside a
/// device gives the size. `None` where the unit address is not a hexadecimal number, or the
/// `reg` item is not a property of at least 16 bytes.
pub open spec fn scan_item(scan: TableScan, item: DtbItem) -> Option<TableScan> {
    let name = item_name(item);
    if item is BeginNode && name.contains('@') {
        match parse_radix(unit_address_of(name), 16) {
            Some(addr) => Some(
                TableScan {
                    devs: completed(scan),
                    curr: if addr > 0x1000 {
                        Some((node_name_of(name), addr))
                    } else {
                        None
                    },
                    size: scan.size,
                },
            ),
            None => None,
        }
    } else if occurs(name, seq!['r', 'e', 'g']) && scan.curr is Some {
        match item {
            DtbItem::Property { value, .. } => if value@.len() >= 16 {
                Some(TableScan { size: reg_size(value@), ..scan })
            } else {
                None
            },
            _ => None,
        }
    } else {
        Some(scan)
    }
}

/// The scan after the items, from nothing gathered; `None` if an item cannot be read.
pub open spec fn scan_items(items: Seq<DtbItem>) -> Option<TableScan>
    decreases items.len(),
{
    if items.len() == 0 {
        Some(TableScan { devs: Seq::empty(), curr: None, size: 0 })
    } else {
        match scan_items(items.drop_last()) {
            Some(scan) => scan_item(scan, items.last()),
            None => None,
        }
    }
}

/// The device table of the items, if every item can be read.
pub open spec fn device_table_of(items: Seq<DtbItem>) -> Option<Seq<DeviceEntry>> {
    match scan_items(items) {
        Some(scan) => Some(completed(scan)),
        None => None,
    }
}

/// A device of the table as a triple.
pub open spec fn entry_of(range: MemoryRange) -> DeviceEntry {
    (range.name@, range.start, range.end)
}

/// The triples of a table of memory ranges.
pub open spec fn entries(table: Seq<MemoryRange>) -> Seq<DeviceEntry> {
    table.map_values(|m: MemoryRange| entry_of(m))
}

/// What `before_at` and `after_at` give for a name whose first `@` is at `i`.
proof fn lemma_split_at_first(s: Seq<char>, i: int)
    requires
        0 <= i < s.len(),
        s[i] == '@',
        forall|j: int| 0 <= j < i ==> s[j] != '@',
    ensures
        before_at(s) == s.take(i),
        after_at(s) == s.skip(i + 1),
    decreases i,
{
    if i > 0 {
        lemma_split_at_first(s.drop_first(), i - 1);
        assert(s.take(i) =~= seq![s[0]] + s.drop_first().take(i - 1));
        assert(s.skip(i + 1) =~= s.drop_first().skip(i));
    } else {
        assert(s.take(0) =~= Seq::<char>::empty());
        assert(s.skip(1) =~= s.drop_first());
    }
}

/// What `before_at` and `after_at` give for a name without `@`.
proof fn lemma_split_without_at(s: Seq<char>)
    requires
        !s.contains('@'),
    ensures
        before_at(s) == s,
        after_at(s) == Seq::<char>::empty(),
    decreases s.len(),
{
    if s.len() > 0 {
        assert(s[0] != '@');
        assert forall|c: char| s.drop_first().contains(c) implies s.contains(c) by {
            let j = choose|j: int| 0 <= j < s.drop_first().len() && s.drop_first()[j] == c;
            assert(s[j + 1] == c);
        }
        lemma_split_without_at(s.drop_first());
        assert(s =~= seq![s[0]] + s.drop_first());
    }
}

/// A node named `a@b`, where neither part has an `@`, has node name `a` and unit address `b`.
pub proof fn lemma_node_name_parts(a: Seq<char>, b: Seq<char>)
    requires
        !a.contains('@'),
        !b.contains('@'),
    ensures
        node_name_of(a + seq!['@'] + b) == a,
        unit_address_of(a + seq!['@'] + b) == b,
{
    let s = a + seq!['@'] + b;
    assert forall|j: int| 0 <= j < a.len() implies s[j] != '@' by {
        assert(s[j] == a[j]);
    }
    lemma_split_at_first(s, a.len() as int);
    assert(s.take(a.len() as int) =~= a);
    assert(s.skip(a.len() + 1int) =~= b);
    lemma_split_without_at(b);
}

/// The position of the first `@` in `s`, if it has one.
fn find_at(s: &str) -> (r: Option<usize>)
    ensures
        match r {
            Some(i) => i < s@.len() && s@[i as int] == '@' && forall|j: int| 0 <= j < i ==> s@[j] != '@',
            None => !s@.contains('@'),
        },
{
    let len = s.unicode_len();
    let mut i: usize = 0;
    while i < len
        invariant
            len == s@.len(),
            i <= len,
            forall|j: int| 0 <= j < i ==> s@[j] != '@',
        decreases len - i,
    {
        if s.get_char(i) == '@' {
            return Some(i);
        }
        i = i + 1;
    }
    None
}

/// The node name of a node's name: the part before the first `@`.
pub fn node_name(name: &str) -> (r: String)
    ensures
        r@ == node_name_of(name@),
{
    match find_at(name) {
        Some(i) => {
            proof {
                lemma_split_at_first(name@, i as int);
            }
            name.substring_char(0, i).to_owned()
        },
        None => {
            proof {
                lemma_split_without_at(name@);
            }
            name.to_owned()
        },
    }
}

/// The unit address of a node's name: the part between the first `@` and the next one (empty
/// when there is no `@`).
pub fn unit_address(name: &str) -> (r: String)
    ensures
        r@ == unit_address_of(name@),
{
    match find_at(name) {
        Some(i) => {
            proof {
                lemma_split_at_first(name@, i as int);
            }
            let len = name.unicode_len();
            let rest = name.substring_char(i + 1, len);
            assert(rest@ == after_at(name@));
            node_name(rest)
        },
        None => {
            proof {
                lemma_split_without_at(name@);
                lemma_split_without_at(Seq::<char>::empty());
            }
            String::new()
        },
    }
}

/// Whether `s` contains `reg`.
pub fn contains_reg(s: &str) -> (b: bool)
    ensures
        b == occurs(s@, seq!['r', 'e', 'g']),
{
    let ghost pat = seq!['r', 'e', 'g'];
    let len = s.unicode_len();
    if len < 3 {
        return false;
    }
    let mut i: usize = 0;
    while i < len - 2
        invariant
            len == s@.len(),
            len >= 3,
            i <= len - 2,
            pat == seq!['r', 'e', 'g'],
            forall|j: int| 0 <= j < i ==> !#[trigger] occurs_at(s@, pat, j),
        decreases len - i,
    {
        if s.get_char(i) == 'r' && s.get_char(i + 1) == 'e' && s.get_char(i + 2) == 'g' {
            assert(s@.subrange(i as int, i + 3) =~= pat);
            assert(occurs_at(s@, pat, i as int));
            return true;
        }
        assert(s@.subrange(i as int, i + 3)[0] == s@[i as int]);
        assert(s@.subrange(i as int, i + 3)[1] == s@[i + 1]);
        assert(s@.subrange(i as int, i + 3)[2] == s@[i + 2]);
        i = i + 1;
    }
    assert forall|j: int| !#[trigger] occurs_at(s@, pat, j) by {
        if 0 <= j && j + 3 <= s@.len() {
            assert(j < i);
        }
    }
    false
}

/// Nothing that is not empty occurs in the empty string.
proof fn lemma_nothing_occurs_in_empty(pat: Seq<char>)
    requires
        pat.len() > 0,
    ensures
        !occurs(Seq::<char>::empty(), pat),
{
    assert forall|i: int| !#[trigger] occurs_at(Seq::<char>::empty(), pat, i) by {}
}

/// The device being read, as the scan models it.
pub open spec fn current_view(curr: Option<(String, u64)>) -> Option<(Seq<char>, u64)> {
    match curr {
        Some((name, start)) => Some((name@, start)),
        None => None,
    }
}

/// The scan of a prefix one item longer.
proof fn lemma_scan_step(items: Seq<DtbItem>, k: int)
    requires
        0 <= k < items.len(),
    ensures
        scan_items(items.take(k + 1)) == match scan_items(items.take(k)) {
            Some(scan) => scan_item(scan, items[k]),
            None => None,
        },
{
    assert(items.take(k + 1).drop_last() =~= items.take(k));
}

/// Once an item cannot be read, the items after it do not matter.
proof fn lemma_scan_stuck(items: Seq<DtbItem>, j: int)
    requires
        0 <= j <= items.len(),
        scan_items(items.take(j)) is None,
    ensures
        scan_items(items) is None,
    decreases items.len() - j,
{
    if j == items.len() {
        assert(items.take(j) =~= items);
    } else {
        lemma_scan_step(items, j);
        lemma_scan_stuck(items, j + 1);
    }
}

/// Completes the device being read, appending it to `devs`.
fn complete(devs: &mut Vec<MemoryRange>, curr: &Option<(String, u64)>, size: u32)
    ensures
        entries(final(devs)@) == completed(
            TableScan { devs: entries(old(devs)@), curr: current_view(*curr), size },
        ),
{
    match curr {
        Some((name, start)) => {
            let range = MemoryRange {
                name: name.clone(),
                start: *start,
                end: start.saturating_add(size as u64),
            };
            let ghost before = devs@;
            devs.push(range);
            assert(entries(devs@) =~= entries(before).push(entry_of(range)));
        },
        None => {},
    }
}

/// Reads the device table from the structure items of a device tree: each node whose name
/// has a unit address above 0x1000 is a device from that address on, as large as the size
/// cell of the last `reg` property read. `None` where an item cannot be read: a unit address
/// that is not a hexadecimal number, or a `reg` item, inside a device, that is not a
/// property of at least 16 bytes.
pub fn scan_device_table(items: &Vec<DtbItem>) -> (r: Option<Vec<MemoryRange>>)
    ensures
        match device_table_of(items@) {
            Some(table) => r matches Some(t) && entries(t@) == table,
            None => r is None,
        },
{
    let mut devs: Vec<MemoryRange> = Vec::new();
    let mut curr: Option<(String, u64)> = None;
    let mut size: u32 = 0;
    let mut k: usize = 0;
    assert(items@.take(0) =~= Seq::<DtbItem>::empty());
    assert(entries(devs@) =~= Seq::<DeviceEntry>::empty());
    while k < items.len()
        invariant
            k <= items@.len(),
            scan_items(items@.take(k as int)) == Some(
                TableScan { devs: entries(devs@), curr: current_view(curr), size },
            ),
        decreases items@.len() - k,
    {
        proof {
            lemma_scan_step(items@, k as int);
        }
        match &items[k] {
            DtbItem::BeginNode { name } => {
                if find_at(name.as_str()).is_some() {
                    let address = match parse_u64_radix(unit_address(name.as_str()).as_str(), 16) {
                        Some(a) => a,
                        None => {
                            proof {
                                lemma_scan_stuck(items@, k + 1);
                            }
                            return None;
                        },
                    };
                    complete(&mut devs, &curr, size);
                    if address > 0x1000 {
                        curr = Some((node_name(name.as_str()), address));
                    } else {
                        curr = None;
                    }
                } else if contains_reg(name.as_str()) && curr.is_some() {
                    proof {
                        lemma_scan_stuck(items@, k + 1);
                    }
                    return None;
                }
            },
            DtbItem::Property { name, value } => {
                if contains_reg(name.as_str()) && curr.is_some() {
                    if value.len() < 16 {
                        proof {
                            lemma_scan_stuck(items@, k + 1);
                        }
                        return None;
                    }
                    size = ((value[12] as u32) << 24) | ((value[13] as u32) << 16) | ((
                    value[14] as u32) << 8) | (value[15] as u32);
                }
            },
            DtbItem::EndNode => {
                proof {
                    lemma_nothing_occurs_in_empty(seq!['r', 'e', 'g']);
                }
                assert(!Seq::<char>::empty().contains('@'));
            },
        }
        k = k + 1;
    }
    assert(items@.take(k as int) =~= items@);
    complete(&mut devs, &curr, size);
    Some(devs)
}

} // verus!

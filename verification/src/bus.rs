use vstd::prelude::*;
use crate::error::Error;
use crate::memory::Memory;

verus! {

/// Whether the region `key` = `(start, end)` holds `addr` (both ends included).
pub open spec fn region_holds(key: (u16, u16), addr: u16) -> bool {
    key.0 <= addr && addr <= key.1
}

/// Whether the region `key` holds the whole range `start..=end`.
pub open spec fn region_encloses(key: (u16, u16), start: u16, end: u16) -> bool {
    start >= key.0 && end <= key.1
}

/// Whether `i` is the first index of `keys` whose region holds `addr`.
pub open spec fn is_first_holding(keys: Seq<(u16, u16)>, addr: u16, i: int) -> bool {
    &&& 0 <= i < keys.len()
    &&& region_holds(keys[i], addr)
    &&& forall|j: int| 0 <= j < i ==> !region_holds(#[trigger] keys[j], addr)
}

/// Whether `i` is the first index of `keys` whose region encloses `start..=end`.
pub open spec fn is_first_enclosing(keys: Seq<(u16, u16)>, start: u16, end: u16, i: int) -> bool {
    &&& 0 <= i < keys.len()
    &&& region_encloses(keys[i], start, end)
    &&& forall|j: int| 0 <= j < i ==> !region_encloses(#[trigger] keys[j], start, end)
}

/// The first region, in the order they were mapped, that holds `addr`.
pub open spec fn region_of(keys: Seq<(u16, u16)>, addr: u16) -> Option<int> {
    if exists|i: int| is_first_holding(keys, addr, i) {
        Some(choose|i: int| is_first_holding(keys, addr, i))
    } else {
        None
    }
}

/// The first region, in the order they were mapped, that encloses `start..=end`.
pub open spec fn enclosing_region(keys: Seq<(u16, u16)>, start: u16, end: u16) -> Option<int> {
    if exists|i: int| is_first_enclosing(keys, start, end, i) {
        Some(choose|i: int| is_first_enclosing(keys, start, end, i))
    } else {
        None
    }
}

/// The regions of a bus model, in the order they were mapped.
pub open spec fn bus_keys<V>(m: Seq<((u16, u16), V)>) -> Seq<(u16, u16)> {
    m.map_values(|e: ((u16, u16), V)| e.0)
}

/// The CPU's address bus: devices mapped to ranges of addresses.
///
/// A read or write goes to the first mapped region that holds its address;
/// where none does, a read gives 0 and a write is dropped.
pub struct Bus<D> {
    memory_map: Vec<((u16, u16), D)>,
}

impl<D: Memory> Bus<D> {
    /// The regions in the order they were mapped.
    pub closed spec fn keys(&self) -> Seq<(u16, u16)> {
        self.memory_map@.map_values(|e: ((u16, u16), D)| e.0)
    }

    /// A bus with nothing mapped.
    pub fn new() -> (r: Bus<D>)
        ensures
            r.model().len() == 0,
    {
        Bus { memory_map: Vec::new() }
    }

    /// The index of the first region that holds `addr`.
    fn find_region(&self, addr: u16) -> (r: Option<usize>)
        ensures
            match r {
                Some(k) => region_of(self.keys(), addr) == Some(k as int) && k < self.keys().len(),
                None => region_of(self.keys(), addr) == None::<int>,
            },
    {
        let mut i: usize = 0;
        while i < self.memory_map.len()
            invariant
                0 <= i <= self.memory_map@.len(),
                self.keys().len() == self.memory_map@.len(),
                forall|j: int| 0 <= j < i ==> !region_holds(#[trigger] self.keys()[j], addr),
            decreases self.memory_map@.len() - i,
        {
            let key = self.memory_map[i].0;
            assert(self.keys()[i as int] == key);
            if addr >= key.0 && addr <= key.1 {
                proof {
                    lemma_first_holding_unique(self.keys(), addr, i as int);
                }
                return Some(i);
            }
            i = i + 1;
        }
        proof {
            assert(!exists|k: int| is_first_holding(self.keys(), addr, k));
        }
        None
    }

    /// The region that a read or write at `addr` goes to.
    pub fn get_region_place(&self, addr: u16) -> (r: Option<(u16, u16)>)
        ensures
            r == (match region_of(self.keys(), addr) {
                Some(i) => Some(self.keys()[i]),
                None => None::<(u16, u16)>,
            }),
    {
        match self.find_region(addr) {
            Some(i) => {
                assert(self.keys()[i as int] == self.memory_map@[i as int].0);
                Some(self.memory_map[i].0)
            },
            None => None,
        }
    }

    /// The first mapped region that encloses `start..=end`.
    pub fn get_region_key(&self, start: u16, end: u16) -> (r: Option<(u16, u16)>)
        ensures
            r == (match enclosing_region(self.keys(), start, end) {
                Some(i) => Some(self.keys()[i]),
                None => None::<(u16, u16)>,
            }),
    {
        let mut i: usize = 0;
        while i < self.memory_map.len()
            invariant
                0 <= i <= self.memory_map@.len(),
                self.keys().len() == self.memory_map@.len(),
                forall|j: int|
                    0 <= j < i ==> !region_encloses(#[trigger] self.keys()[j], start, end),
            decreases self.memory_map@.len() - i,
        {
            let key = self.memory_map[i].0;
            assert(self.keys()[i as int] == key);
            if start >= key.0 && end <= key.1 {
                proof {
                    lemma_first_enclosing_unique(self.keys(), start, end, i as int);
                }
                return Some(key);
            }
            i = i + 1;
        }
        proof {
            assert(!exists|k: int| is_first_enclosing(self.keys(), start, end, k));
        }
        None
    }

    /// Maps `device` to the addresses `start..=end`.
    ///
    /// The mapping is refused when an existing region already encloses the
    /// whole range; the error names the first such region.
    pub fn map_region(&mut self, start: u16, end: u16, device: D) -> (r: Result<(), Error>)
        ensures
            match enclosing_region(old(self).keys(), start, end) {
                Some(i) => {
                    &&& r == Err::<(), Error>(Error::MemoryMapConflict(old(self).keys()[i]))
                    &&& final(self).model() == old(self).model()
                },
                None => {
                    &&& r == Ok::<(), Error>(())
                    &&& final(self).model() == old(self).model().push(((start, end), device.model()))
                },
            },
            bus_keys(final(self).model()) == final(self).keys(),
    {
        let found = self.get_region_key(start, end);
        if let Some(key) = found {
            proof {
                self.lemma_keys();
            }
            Err(Error::MemoryMapConflict(key))
        } else {
            self.memory_map.push(((start, end), device));
            proof {
                self.lemma_keys();
                assert(self.model() =~= old(self).model().push(((start, end), device.model())));
            }
            Ok(())
        }
    }

    /// The model's regions are the bus's regions.
    pub proof fn lemma_keys(&self)
        ensures
            bus_keys(self.model()) == self.keys(),
            self.model().len() == self.keys().len(),
    {
        assert(bus_keys(self.model()) =~= self.keys());
    }
}

/// At most one index is the first to hold an address.
proof fn lemma_first_holding_unique(keys: Seq<(u16, u16)>, addr: u16, i: int)
    requires
        is_first_holding(keys, addr, i),
    ensures
        region_of(keys, addr) == Some(i),
{
    let k = choose|k: int| is_first_holding(keys, addr, k);
    assert(is_first_holding(keys, addr, k));
    if k < i {
        assert(!region_holds(keys[k], addr));
    } else if k > i {
        assert(!region_holds(keys[i], addr));
    }
}

/// At most one index is the first to enclose a range.
proof fn lemma_first_enclosing_unique(keys: Seq<(u16, u16)>, start: u16, end: u16, i: int)
    requires
        is_first_enclosing(keys, start, end, i),
    ensures
        enclosing_region(keys, start, end) == Some(i),
{
    let k = choose|k: int| is_first_enclosing(keys, start, end, k);
    assert(is_first_enclosing(keys, start, end, k));
    if k < i {
        assert(!region_encloses(keys[k], start, end));
    } else if k > i {
        assert(!region_encloses(keys[i], start, end));
    }
}

impl<D: Memory> Memory for Bus<D> {
    /// Each region with the model of the device mapped there, in the order
    /// they were mapped.
    type Model = Seq<((u16, u16), D::Model)>;

    closed spec fn model(&self) -> Seq<((u16, u16), D::Model)> {
        Seq::new(self.memory_map@.len(), |i: int| (self.memory_map@[i].0, self.memory_map@[i].1.model()))
    }

    open spec fn read_model(m: Self::Model, addr: u16) -> u8 {
        match region_of(bus_keys(m), addr) {
            Some(i) => D::read_model(m[i].1, addr),
            None => 0,
        }
    }

    open spec fn can_read(m: Self::Model, addr: u16) -> bool {
        match region_of(bus_keys(m), addr) {
            Some(i) => D::can_read(m[i].1, addr),
            None => true,
        }
    }

    open spec fn can_write(m: Self::Model, addr: u16) -> bool {
        match region_of(bus_keys(m), addr) {
            Some(i) => D::can_write(m[i].1, addr),
            None => true,
        }
    }

    open spec fn write_model(m: Self::Model, addr: u16, data: u8) -> Self::Model {
        match region_of(bus_keys(m), addr) {
            Some(i) => m.update(i, (m[i].0, D::write_model(m[i].1, addr, data))),
            None => m,
        }
    }

    fn mem_read(&self, addr: u16) -> (r: u8) {
        proof {
            self.lemma_keys();
        }
        if let Some(i) = self.find_region(addr) {
            assert(self.model()[i as int].1 == self.memory_map@[i as int].1.model());
            self.memory_map[i].1.mem_read(addr)
        } else {
            0
        }
    }

    fn mem_write(&mut self, addr: u16, data: u8) {
        proof {
            self.lemma_keys();
        }
        if let Some(i) = self.find_region(addr) {
            assert(self.model()[i as int].1 == self.memory_map@[i as int].1.model());
            self.memory_map[i].1.mem_write(addr, data);
            proof {
                let ii = i as int;
                assert(self.memory_map@[ii].0 == old(self).memory_map@[ii].0);
                assert forall|k: int| 0 <= k < self.memory_map@.len() && k != ii implies
                    self.memory_map@[k] == old(self).memory_map@[k] by {}
                assert(self.model() =~= Self::write_model(old(self).model(), addr, data));
            }
        }
    }

    fn readable(&self, addr: u16) -> (r: bool) {
        proof {
            self.lemma_keys();
        }
        if let Some(i) = self.find_region(addr) {
            assert(self.model()[i as int].1 == self.memory_map@[i as int].1.model());
            self.memory_map[i].1.readable(addr)
        } else {
            true
        }
    }

    fn writable(&self, addr: u16) -> (r: bool) {
        proof {
            self.lemma_keys();
        }
        if let Some(i) = self.find_region(addr) {
            assert(self.model()[i as int].1 == self.memory_map@[i as int].1.model());
            self.memory_map[i].1.writable(addr)
        } else {
            true
        }
    }
}

/// A write leaves the regions of the bus as they were.
pub proof fn lemma_write_keeps_regions<D: Memory>(m: Seq<((u16, u16), D::Model)>, addr: u16, data: u8)
    ensures
        bus_keys(Bus::<D>::write_model(m, addr, data)) == bus_keys(m),
{
    assert(bus_keys(Bus::<D>::write_model(m, addr, data)) =~= bus_keys(m));
}

/// A read after a write at `addr` sees the write through the device that
/// both addresses reach; a read at an address of another region, or of no
/// region, sees what it saw before.
pub proof fn lemma_read_after_write<D: Memory>(m: Seq<((u16, u16), D::Model)>, addr: u16, data: u8, other: u16)
    ensures
        Bus::<D>::read_model(Bus::<D>::write_model(m, addr, data), other) == match (
            region_of(bus_keys(m), addr),
            region_of(bus_keys(m), other),
        ) {
            (Some(i), Some(j)) => if i == j {
                D::read_model(D::write_model(m[i].1, addr, data), other)
            } else {
                Bus::<D>::read_model(m, other)
            },
            _ => Bus::<D>::read_model(m, other),
        },
{
    lemma_write_keeps_regions::<D>(m, addr, data);
    if let Some(i) = region_of(bus_keys(m), addr) {
        assert(is_first_holding(bus_keys(m), addr, i));
    }
}

/// Once a device is mapped, an address of its region that no earlier region
/// holds reads from that device, and the other addresses read as before.
pub proof fn lemma_read_after_map<D: Memory>(
    m: Seq<((u16, u16), D::Model)>,
    start: u16,
    end: u16,
    device: D::Model,
    addr: u16,
)
    ensures
        Bus::<D>::read_model(m.push(((start, end), device)), addr) == match region_of(bus_keys(m), addr) {
            Some(i) => Bus::<D>::read_model(m, addr),
            None => if start <= addr && addr <= end {
                D::read_model(device, addr)
            } else {
                0
            },
        },
{
    let m2 = m.push(((start, end), device));
    let k1 = bus_keys(m);
    let k2 = bus_keys(m2);
    assert(k2 =~= k1.push((start, end)));
    match region_of(k1, addr) {
        Some(i) => {
            assert(is_first_holding(k1, addr, i));
            assert(is_first_holding(k2, addr, i));
            lemma_region_unique(k2, addr, i);
        },
        None => {
            assert forall|j: int| 0 <= j < k1.len() implies !region_holds(#[trigger] k1[j], addr) by {
                if region_holds(k1[j], addr) {
                    lemma_some_holding_has_first(k1, addr, j);
                }
            }
            if start <= addr && addr <= end {
                assert(is_first_holding(k2, addr, k1.len() as int));
                lemma_region_unique(k2, addr, k1.len() as int);
            } else {
                assert forall|j: int| 0 <= j < k2.len() implies !region_holds(#[trigger] k2[j], addr) by {
                    if j < k1.len() {
                        assert(k2[j] == k1[j]);
                    }
                }
                assert(!exists|j: int| is_first_holding(k2, addr, j));
            }
        },
    }
}

/// The region lookup names the first region that holds the address.
proof fn lemma_region_unique(keys: Seq<(u16, u16)>, addr: u16, i: int)
    requires
        is_first_holding(keys, addr, i),
    ensures
        region_of(keys, addr) == Some(i),
{
    lemma_first_holding_unique(keys, addr, i);
}

/// When some region holds an address, the lookup finds one.
proof fn lemma_some_holding_has_first(keys: Seq<(u16, u16)>, addr: u16, j: int)
    requires
        0 <= j < keys.len(),
        region_holds(keys[j], addr),
    ensures
        region_of(keys, addr) is Some,
    decreases j,
{
    if forall|k: int| 0 <= k < j ==> !region_holds(#[trigger] keys[k], addr) {
        assert(is_first_holding(keys, addr, j));
    } else {
        let k = choose|k: int| 0 <= k < j && region_holds(#[trigger] keys[k], addr);
        lemma_some_holding_has_first(keys, addr, k);
    }
}

/// A lookup finds a region exactly when some mapped region holds the address
/// (its start at or below it, its end at or above it), and then it finds the
/// earliest mapped of those.
pub proof fn lemma_region_lookup(keys: Seq<(u16, u16)>, addr: u16)
    ensures
        region_of(keys, addr) is Some <==> exists|j: int| 0 <= j < keys.len() && keys[j].0 <= addr && addr <= keys[j].1,
        region_of(keys, addr) matches Some(i) ==> {
            &&& 0 <= i < keys.len()
            &&& keys[i].0 <= addr && addr <= keys[i].1
            &&& forall|j: int| 0 <= j < i ==> !(keys[j].0 <= addr && addr <= #[trigger] keys[j].1)
        },
{
    if exists|j: int| 0 <= j < keys.len() && keys[j].0 <= addr && addr <= keys[j].1 {
        let j = choose|j: int| 0 <= j < keys.len() && keys[j].0 <= addr && addr <= keys[j].1;
        assert(region_holds(keys[j], addr));
        lemma_some_holding_has_first(keys, addr, j);
    }
    if let Some(i) = region_of(keys, addr) {
        assert(is_first_holding(keys, addr, i));
        assert forall|j: int| 0 <= j < i implies !(keys[j].0 <= addr && addr <= #[trigger] keys[j].1) by {
            assert(!region_holds(keys[j], addr));
        }
    }
}

/// A new range conflicts exactly when some mapped region starts at or below
/// its start and ends at or above its end (so mapping the same range twice is
/// refused); the conflict named is the earliest mapped such region.
pub proof fn lemma_mapping_conflict(keys: Seq<(u16, u16)>, start: u16, end: u16)
    ensures
        enclosing_region(keys, start, end) is Some <==> exists|j: int|
            0 <= j < keys.len() && keys[j].0 <= start && end <= keys[j].1,
        enclosing_region(keys, start, end) matches Some(i) ==> {
            &&& 0 <= i < keys.len()
            &&& keys[i].0 <= start && end <= keys[i].1
            &&& forall|j: int| 0 <= j < i ==> !(keys[j].0 <= start && end <= #[trigger] keys[j].1)
        },
{
    if exists|j: int| 0 <= j < keys.len() && keys[j].0 <= start && end <= keys[j].1 {
        let j = choose|j: int| 0 <= j < keys.len() && keys[j].0 <= start && end <= keys[j].1;
        assert(region_encloses(keys[j], start, end));
        lemma_some_enclosing_has_first(keys, start, end, j);
    }
    if let Some(i) = enclosing_region(keys, start, end) {
        assert(is_first_enclosing(keys, start, end, i));
        assert forall|j: int| 0 <= j < i implies !(keys[j].0 <= start && end <= #[trigger] keys[j].1) by {
            assert(!region_encloses(keys[j], start, end));
        }
    }
}

/// When some region encloses a range, the search for one finds one.
proof fn lemma_some_enclosing_has_first(keys: Seq<(u16, u16)>, start: u16, end: u16, j: int)
    requires
        0 <= j < keys.len(),
        region_encloses(keys[j], start, end),
    ensures
        enclosing_region(keys, start, end) is Some,
    decreases j,
{
    if forall|k: int| 0 <= k < j ==> !region_encloses(#[trigger] keys[k], start, end) {
        assert(is_first_enclosing(keys, start, end, j));
    } else {
        let k = choose|k: int| 0 <= k < j && region_encloses(#[trigger] keys[k], start, end);
        lemma_some_enclosing_has_first(keys, start, end, k);
    }
}

} // verus!

//! A guest-physical memory model: a sorted, disjoint set of byte-backed
//! regions, addressed by guest-physical address, with typed object reads and
//! writes in little-endian byte order.
//!
//! The backing bytes model what the guest observes; mapping them into the
//! host address space is the hypervisor backend's business.

use vstd::prelude::*;

verus! {

/// Errors of the guest-memory model.
#[derive(Debug, PartialEq, Eq, Structural, Clone, Copy)]
pub enum GuestMemoryError {
    /// No region was supplied.
    NoMemoryRegions,
    /// Two supplied regions overlap, or they are not in ascending order.
    MemoryRegionOverlap,
    /// An access does not fall wholly inside one region.
    InvalidGuestAddress,
    /// The memory was read before it was initialized.
    MemoryNotInitialized,
}

/// A guest-physical address.
#[derive(Clone, Copy, PartialEq, Eq, Structural, Debug)]
pub struct GuestAddress(pub usize);

impl GuestAddress {
    /// The raw offset of the address.
    pub fn offset(&self) -> (r: usize)
        ensures
            r == self.0,
    {
        self.0
    }
}

/// Mathematical image of one memory region.
pub struct MemRegionView {
    pub guest_base: usize,
    pub data: Seq<u8>,
}

struct MemRegion {
    guest_base: usize,
    data: Vec<u8>,
}

impl View for MemRegion {
    type V = MemRegionView;

    closed spec fn view(&self) -> MemRegionView {
        MemRegionView { guest_base: self.guest_base, data: self.data@ }
    }
}

/// The byte range `[addr, addr + len)` lies wholly inside the region.
pub open spec fn region_contains(r: MemRegionView, addr: nat, len: nat) -> bool {
    r.guest_base <= addr && addr + len <= r.guest_base + r.data.len()
}

/// The regions stand in ascending guest-physical order without overlap.
pub open spec fn regions_disjoint(v: Seq<MemRegionView>) -> bool {
    forall|i: int|
        0 <= i && i + 1 < v.len() ==> #[trigger] v[i].guest_base + v[i].data.len() <= v[i
            + 1].guest_base
}

/// The first region, from `i` on, wholly containing `[addr, addr + len)`.
pub open spec fn spec_find_region_from(
    v: Seq<MemRegionView>,
    addr: nat,
    len: nat,
    i: nat,
) -> Option<nat>
    decreases v.len() - i,
{
    if i >= v.len() {
        Option::None
    } else if region_contains(v[i as int], addr, len) {
        Option::Some(i)
    } else {
        spec_find_region_from(v, addr, len, i + 1)
    }
}

/// The first region wholly containing `[addr, addr + len)`.
pub open spec fn spec_find_region(v: Seq<MemRegionView>, addr: nat, len: nat) -> Option<nat> {
    spec_find_region_from(v, addr, len, 0)
}

/// Which region an access lands in depends only on the regions' bases and
/// lengths, not on the bytes they hold.
pub proof fn lemma_find_region_shape(
    v: Seq<MemRegionView>,
    w: Seq<MemRegionView>,
    addr: nat,
    len: nat,
    i: nat,
)
    requires
        v.len() == w.len(),
        forall|k: int|
            0 <= k < v.len() ==> #[trigger] w[k].guest_base == v[k].guest_base && w[k].data.len()
                == v[k].data.len(),
    ensures
        spec_find_region_from(w, addr, len, i) == spec_find_region_from(v, addr, len, i),
    decreases v.len() - i,
{
    if i >= v.len() {
    } else {
        lemma_find_region_shape(v, w, addr, len, i + 1)
    }
}

/// The bytes of `r` with `bytes` written at guest address `addr`.
pub open spec fn spec_region_written(r: MemRegionView, addr: nat, bytes: Seq<u8>) -> MemRegionView {
    let off = addr - r.guest_base;
    MemRegionView {
        guest_base: r.guest_base,
        data: r.data.subrange(0, off).add(bytes).add(
            r.data.subrange(off + bytes.len(), r.data.len() as int),
        ),
    }
}

/// The `len` bytes of `r` at guest address `addr`.
pub open spec fn spec_region_bytes(r: MemRegionView, addr: nat, len: nat) -> Seq<u8> {
    let off = addr - r.guest_base;
    r.data.subrange(off as int, off + len)
}

/// Guest-physical memory: byte-backed regions in ascending order.
pub struct GuestMemory {
    regions: Vec<MemRegion>,
}

impl View for GuestMemory {
    type V = Seq<MemRegionView>;

    closed spec fn view(&self) -> Seq<MemRegionView> {
        self.regions@.map_values(|r: MemRegion| r@)
    }
}

/// The region views the given (base, size) ranges denote, zero-filled.
pub open spec fn spec_fresh_regions(ranges: Seq<(GuestAddress, usize)>) -> Seq<MemRegionView> {
    ranges.map_values(
        |t: (GuestAddress, usize)| MemRegionView { guest_base: t.0.0, data: Seq::new(t.1 as nat, |i: int| 0u8) },
    )
}

impl GuestMemory {
    /// Creates zero-filled guest memory over the given `(base, size)`
    /// ranges. Fails when no range is supplied, or when the ranges are not
    /// in ascending guest-physical order with no overlap.
    pub fn new(ranges: &Vec<(GuestAddress, usize)>) -> (r: Result<GuestMemory, GuestMemoryError>)
        ensures
            match r {
                Ok(m) => {
                    &&& m@ == spec_fresh_regions(ranges@)
                    &&& regions_disjoint(m@)
                    &&& m@.len() == ranges@.len()
                    &&& ranges@.len() > 0
                },
                Err(GuestMemoryError::NoMemoryRegions) => ranges@.len() == 0,
                Err(GuestMemoryError::MemoryRegionOverlap) => !regions_disjoint(
                    spec_fresh_regions(ranges@),
                ),
                Err(_) => false,
            },
    {
        if ranges.len() == 0 {
            return Err(GuestMemoryError::NoMemoryRegions);
        }
        let mut regions: Vec<MemRegion> = Vec::new();
        let mut i: usize = 0;
        while i < ranges.len()
            invariant
                i <= ranges@.len(),
                regions@.len() == i,
                forall|k: int|
                    0 <= k < i ==> #[trigger] regions@[k]@ == spec_fresh_regions(ranges@)[k],
                forall|k: int|
                    0 <= k && k + 1 < i ==> #[trigger] ranges@[k].0.0 + ranges@[k].1
                        <= ranges@[k + 1].0.0,
            decreases ranges@.len() - i,
        {
            if i > 0 {
                let (prev_base, prev_size) = ranges[i - 1];
                let (cur_base, _) = ranges[i];
                if (prev_base.0 as u128) + (prev_size as u128) > (cur_base.0 as u128) {
                    proof {
                        let fr = spec_fresh_regions(ranges@);
                        assert(fr[i as int - 1].guest_base + fr[i as int - 1].data.len() > fr[i
                            as int].guest_base);
                        assert(!regions_disjoint(fr));
                    }
                    return Err(GuestMemoryError::MemoryRegionOverlap);
                }
            }
            let (base, size) = ranges[i];
            let mut data: Vec<u8> = Vec::new();
            let mut j: usize = 0;
            while j < size
                invariant
                    j <= size,
                    data@ =~= Seq::new(j as nat, |k: int| 0u8),
                decreases size - j,
            {
                data.push(0);
                j = j + 1;
            }
            regions.push(MemRegion { guest_base: base.0, data });
            i = i + 1;
        }
        let m = GuestMemory { regions };
        proof {
            assert(m@ =~= spec_fresh_regions(ranges@));
        }
        Ok(m)
    }

    /// The number of memory regions.
    pub fn num_regions(&self) -> (r: usize)
        ensures
            r == self@.len(),
    {
        self.regions.len()
    }

    /// The guest-physical base and byte size of the region at `index`.
    pub fn region_info(&self, index: usize) -> (r: (GuestAddress, usize))
        requires
            index < self@.len(),
        ensures
            r.0.0 == self@[index as int].guest_base,
            r.1 == self@[index as int].data.len(),
    {
        let region = &self.regions[index];
        (GuestAddress(region.guest_base), region.data.len())
    }

    fn find_region_from(&self, addr: usize, len: usize, i: usize) -> (r: Option<usize>)
        requires
            i <= self@.len(),
        ensures
            (match r {
                Option::Some(k) => Option::Some(k as nat),
                Option::None => Option::None,
            }) == spec_find_region_from(self@, addr as nat, len as nat, i as nat),
            r matches Some(k) ==> i <= k < self@.len() && region_contains(
                self@[k as int],
                addr as nat,
                len as nat,
            ),
        decreases self@.len() - i,
    {
        if i >= self.regions.len() {
            return None;
        }
        let region = &self.regions[i];
        if region.guest_base <= addr && (addr as u128) + (len as u128) <= (region.guest_base
            as u128) + (region.data.len() as u128) {
            Some(i)
        } else {
            self.find_region_from(addr, len, i + 1)
        }
    }

    /// Writes an object at a guest address, failing when the object does not
    /// fall wholly inside one region.
    pub fn write_obj_at_addr<T: DataInit>(&mut self, val: T, addr: GuestAddress) -> (r: Result<
        (),
        GuestMemoryError,
    >)
        ensures
            match r {
                Ok(()) => {
                    &&& spec_find_region(old(self)@, addr.0 as nat, T::spec_size()) matches Some(k)
                    &&& final(self)@ == old(self)@.update(
                        spec_find_region(old(self)@, addr.0 as nat, T::spec_size()).unwrap() as int,
                        spec_region_written(
                            old(self)@[spec_find_region(
                                old(self)@,
                                addr.0 as nat,
                                T::spec_size(),
                            ).unwrap() as int],
                            addr.0 as nat,
                            val.spec_to_bytes(),
                        ),
                    )
                },
                Err(GuestMemoryError::InvalidGuestAddress) => {
                    &&& spec_find_region(old(self)@, addr.0 as nat, T::spec_size()) is None
                    &&& final(self)@ == old(self)@
                },
                Err(_) => false,
            },
    {
        proof {
            val.lemma_round_trip();
        }
        let size = T::size_of_val();
        let bytes = val.to_bytes();
        let k = match self.find_region_from(addr.0, size, 0) {
            Option::Some(k) => k,
            Option::None => {
                return Err(GuestMemoryError::InvalidGuestAddress);
            },
        };
        let base = self.regions[k].guest_base;
        let old_len = self.regions[k].data.len();
        let off = addr.0 - base;
        let mut new_data: Vec<u8> = Vec::new();
        let mut j: usize = 0;
        while j < old_len
            invariant
                j <= old_len,
                k < self@.len(),
                old_len == self@[k as int].data.len(),
                base == self@[k as int].guest_base,
                self@ == old(self)@,
                bytes@ == val.spec_to_bytes(),
                bytes@.len() == T::spec_size(),
                off == addr.0 - base,
                off + bytes@.len() <= old_len,
                new_data@.len() == j,
                forall|t: int|
                    0 <= t < j ==> #[trigger] new_data@[t] == (if off <= t < off + bytes@.len() {
                        bytes@[t - off]
                    } else {
                        self@[k as int].data[t]
                    }),
            decreases old_len - j,
        {
            if j >= off && j < off + bytes.len() {
                new_data.push(bytes[j - off]);
            } else {
                new_data.push(self.regions[k].data[j]);
            }
            j = j + 1;
        }
        self.regions.remove(k);
        self.regions.insert(k, MemRegion { guest_base: base, data: new_data });
        proof {
            assert(final(self)@ =~= old(self)@.update(
                k as int,
                spec_region_written(old(self)@[k as int], addr.0 as nat, val.spec_to_bytes()),
            )) by {
                assert(spec_region_written(
                    old(self)@[k as int],
                    addr.0 as nat,
                    val.spec_to_bytes(),
                ).data =~= new_data@);
            }
        }
        Ok(())
    }

    /// Reads an object from a guest address, failing when the object does
    /// not fall wholly inside one region.
    pub fn read_obj_from_addr<T: DataInit>(&self, addr: GuestAddress) -> (r: Result<
        T,
        GuestMemoryError,
    >)
        ensures
            match r {
                Ok(v) => {
                    &&& spec_find_region(self@, addr.0 as nat, T::spec_size()) matches Some(k)
                    &&& v == T::spec_from_bytes(
                        spec_region_bytes(
                            self@[spec_find_region(self@, addr.0 as nat, T::spec_size()).unwrap() as int],
                            addr.0 as nat,
                            T::spec_size(),
                        ),
                    )
                },
                Err(GuestMemoryError::InvalidGuestAddress) => spec_find_region(
                    self@,
                    addr.0 as nat,
                    T::spec_size(),
                ) is None,
                Err(_) => false,
            },
    {
        let size = T::size_of_val();
        let k = match self.find_region_from(addr.0, size, 0) {
            Option::Some(k) => k,
            Option::None => {
                return Err(GuestMemoryError::InvalidGuestAddress);
            },
        };
        let base = self.regions[k].guest_base;
        let off = addr.0 - base;
        let dlen = self.regions[k].data.len();
        let mut buf: Vec<u8> = Vec::new();
        let mut j: usize = 0;
        while j < size
            invariant
                j <= size,
                k < self@.len(),
                base == self@[k as int].guest_base,
                off == addr.0 - base,
                dlen == self@[k as int].data.len(),
                off + size <= dlen,
                size == T::spec_size(),
                buf@ =~= spec_region_bytes(self@[k as int], addr.0 as nat, j as nat),
            decreases size - j,
        {
            proof {
                assert(self@[k as int] == self.regions@[k as int]@);
                assert(off + j < self.regions@[k as int]@.data.len());
            }
            buf.push(self.regions[k].data[off + j]);
            proof {
                assert(buf@ =~= spec_region_bytes(self@[k as int], addr.0 as nat, (j + 1) as nat));
            }
            j = j + 1;
        }
        Ok(T::from_bytes(buf.as_slice()))
    }
}

/// A found region does contain the access.
pub proof fn lemma_find_region_contains(v: Seq<MemRegionView>, addr: nat, len: nat, i: nat)
    requires
        spec_find_region_from(v, addr, len, i) is Some,
    ensures
        spec_find_region_from(v, addr, len, i).unwrap() < v.len(),
        i <= spec_find_region_from(v, addr, len, i).unwrap(),
        region_contains(v[spec_find_region_from(v, addr, len, i).unwrap() as int], addr, len),
    decreases v.len() - i,
{
    if i >= v.len() {
    } else if region_contains(v[i as int], addr, len) {
    } else {
        lemma_find_region_contains(v, addr, len, i + 1);
    }
}

/// Writing an object to guest memory and then reading the same address
/// returns the object.
pub proof fn lemma_write_then_read<T: DataInit>(
    before: Seq<MemRegionView>,
    after: Seq<MemRegionView>,
    val: T,
    addr: nat,
    k: nat,
)
    requires
        spec_find_region(before, addr, T::spec_size()) == Option::Some(k),
        after == before.update(
            k as int,
            spec_region_written(before[k as int], addr, val.spec_to_bytes()),
        ),
    ensures
        spec_find_region(after, addr, T::spec_size()) == Option::Some(k),
        T::spec_from_bytes(spec_region_bytes(after[k as int], addr, T::spec_size())) == val,
{
    val.lemma_round_trip();
    lemma_find_region_contains(before, addr, T::spec_size(), 0);
    let w = spec_region_written(before[k as int], addr, val.spec_to_bytes());
    assert(w.data.len() == before[k as int].data.len());
    assert(after.len() == before.len());
    assert(forall|t: int|
        0 <= t < before.len() ==> #[trigger] after[t].guest_base == before[t].guest_base
            && after[t].data.len() == before[t].data.len());
    lemma_find_region_shape(before, after, addr, T::spec_size(), 0);
    assert(spec_region_bytes(after[k as int], addr, T::spec_size()) =~= val.spec_to_bytes());
}

/// A value that can cross the guest-memory boundary as raw little-endian
/// bytes of a fixed width.
pub trait DataInit: Sized {
    /// The byte width of the type.
    spec fn spec_size() -> nat;

    /// The little-endian bytes of a value.
    spec fn spec_to_bytes(self) -> Seq<u8>;

    /// The value the given little-endian bytes denote.
    spec fn spec_from_bytes(b: Seq<u8>) -> Self;

    /// Serialization is the exact inverse of deserialization.
    proof fn lemma_round_trip(self)
        ensures
            self.spec_to_bytes().len() == Self::spec_size(),
            Self::spec_from_bytes(self.spec_to_bytes()) == self,
    ;

    /// The byte width, executable form.
    fn size_of_val() -> (r: usize)
        ensures
            r as nat == Self::spec_size(),
    ;

    /// Serializes the value.
    fn to_bytes(&self) -> (r: Vec<u8>)
        ensures
            r@ == self.spec_to_bytes(),
    ;

    /// Deserializes a value from exactly `spec_size` bytes.
    fn from_bytes(b: &[u8]) -> (r: Self)
        requires
            b@.len() == Self::spec_size(),
        ensures
            r == Self::spec_from_bytes(b@),
    ;
}

impl DataInit for u8 {
    open spec fn spec_size() -> nat {
        1
    }

    open spec fn spec_to_bytes(self) -> Seq<u8> {
        seq![self]
    }

    open spec fn spec_from_bytes(b: Seq<u8>) -> Self {
        b[0]
    }

    proof fn lemma_round_trip(self) {
        assert(Self::spec_from_bytes(self.spec_to_bytes()) == self);
    }

    fn size_of_val() -> (r: usize) {
        1
    }

    fn to_bytes(&self) -> (r: Vec<u8>) {
        let mut v: Vec<u8> = Vec::new();
        v.push(*self);
        proof {
            assert(v@ =~= self.spec_to_bytes());
        }
        v
    }

    fn from_bytes(b: &[u8]) -> (r: Self) {
        b[0]
    }
}

impl DataInit for u16 {
    open spec fn spec_size() -> nat {
        2
    }

    open spec fn spec_to_bytes(self) -> Seq<u8> {
        seq![(self % 256) as u8, (self / 256) as u8]
    }

    open spec fn spec_from_bytes(b: Seq<u8>) -> Self {
        (b[0] + b[1] * 256) as u16
    }

    proof fn lemma_round_trip(self) {
        assert((self % 256) + (self / 256) * 256 == self) by (nonlinear_arith);
    }

    fn size_of_val() -> (r: usize) {
        2
    }

    fn to_bytes(&self) -> (r: Vec<u8>) {
        let mut v: Vec<u8> = Vec::new();
        v.push((*self % 256) as u8);
        v.push((*self / 256) as u8);
        proof {
            assert(v@ =~= self.spec_to_bytes());
        }
        v
    }

    fn from_bytes(b: &[u8]) -> (r: Self) {
        (b[0] as u16) + (b[1] as u16) * 256
    }
}

impl DataInit for u32 {
    open spec fn spec_size() -> nat {
        4
    }

    open spec fn spec_to_bytes(self) -> Seq<u8> {
        seq![
            (self % 256) as u8,
            ((self / 256) % 256) as u8,
            ((self / 65536) % 256) as u8,
            (self / 16777216) as u8,
        ]
    }

    open spec fn spec_from_bytes(b: Seq<u8>) -> Self {
        (b[0] + b[1] * 256 + b[2] * 65536 + b[3] * 16777216) as u32
    }

    proof fn lemma_round_trip(self) {
        assert((self % 256) + ((self / 256) % 256) * 256 + ((self / 65536) % 256) * 65536 + (self
            / 16777216) * 16777216 == self) by (bit_vector);
    }

    fn size_of_val() -> (r: usize) {
        4
    }

    fn to_bytes(&self) -> (r: Vec<u8>) {
        let mut v: Vec<u8> = Vec::new();
        v.push((*self % 256) as u8);
        v.push(((*self / 256) % 256) as u8);
        v.push(((*self / 65536) % 256) as u8);
        v.push((*self / 16777216) as u8);
        proof {
            assert(v@ =~= self.spec_to_bytes());
        }
        v
    }

    fn from_bytes(b: &[u8]) -> (r: Self) {
        (b[0] as u32) + (b[1] as u32) * 256 + (b[2] as u32) * 65536 + (b[3] as u32) * 16777216
    }
}

impl DataInit for u64 {
    open spec fn spec_size() -> nat {
        8
    }

    open spec fn spec_to_bytes(self) -> Seq<u8> {
        seq![
            (self % 256) as u8,
            ((self / 0x100) % 256) as u8,
            ((self / 0x10000) % 256) as u8,
            ((self / 0x1000000) % 256) as u8,
            ((self / 0x100000000) % 256) as u8,
            ((self / 0x10000000000) % 256) as u8,
            ((self / 0x1000000000000) % 256) as u8,
            (self / 0x100000000000000) as u8,
        ]
    }

    open spec fn spec_from_bytes(b: Seq<u8>) -> Self {
        (b[0] + b[1] * 0x100 + b[2] * 0x10000 + b[3] * 0x1000000 + b[4] * 0x100000000 + b[5]
            * 0x10000000000 + b[6] * 0x1000000000000 + b[7] * 0x100000000000000) as u64
    }

    proof fn lemma_round_trip(self) {
        assert((self % 256) + ((self / 0x100) % 256) * 0x100 + ((self / 0x10000) % 256) * 0x10000 + (
        (self / 0x1000000) % 256) * 0x1000000 + ((self / 0x100000000) % 256) * 0x100000000 + ((self
            / 0x10000000000) % 256) * 0x10000000000 + ((self / 0x1000000000000) % 256)
            * 0x1000000000000 + (self / 0x100000000000000) * 0x100000000000000 == self)
            by (bit_vector);
    }

    fn size_of_val() -> (r: usize) {
        8
    }

    fn to_bytes(&self) -> (r: Vec<u8>) {
        let mut v: Vec<u8> = Vec::new();
        v.push((*self % 256) as u8);
        v.push(((*self / 0x100) % 256) as u8);
        v.push(((*self / 0x10000) % 256) as u8);
        v.push(((*self / 0x1000000) % 256) as u8);
        v.push(((*self / 0x100000000) % 256) as u8);
        v.push(((*self / 0x10000000000) % 256) as u8);
        v.push(((*self / 0x1000000000000) % 256) as u8);
        v.push((*self / 0x100000000000000) as u8);
        proof {
            assert(v@ =~= self.spec_to_bytes());
        }
        v
    }

    fn from_bytes(b: &[u8]) -> (r: Self) {
        (b[0] as u64) + (b[1] as u64) * 0x100 + (b[2] as u64) * 0x10000 + (b[3] as u64) * 0x1000000
            + (b[4] as u64) * 0x100000000 + (b[5] as u64) * 0x10000000000 + (b[6] as u64)
            * 0x1000000000000 + (b[7] as u64) * 0x100000000000000
    }
}

} // verus!

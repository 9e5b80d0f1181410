use std::marker::PhantomData;
use vstd::prelude::*;

verus! {

/// Number of sectors on a tag of capacity `C`.
pub open spec fn sectors_of<C: TagCapacity>() -> int {
    C::capacity_bytes() as int / 64
}

/// Number of 16-byte blocks on a tag of capacity `C`.
pub open spec fn blocks_of<C: TagCapacity>() -> int {
    C::capacity_bytes() as int / 16
}

/// A valid sector number on a tag of capacity `C`.
pub open spec fn is_sector_number<C: TagCapacity>(n: int) -> bool {
    0 <= n < sectors_of::<C>()
}

/// A valid data-block offset within a sector (the trailer is excluded).
pub open spec fn is_block_offset(n: int) -> bool {
    0 <= n <= 2
}

/// A valid tag-wide block address on a tag of capacity `C`.
pub open spec fn is_absolute_block<C: TagCapacity>(n: int) -> bool {
    0 <= n < blocks_of::<C>()
}

/// A valid address of the first block of a sector on a tag of capacity `C`.
pub open spec fn is_sector_start<C: TagCapacity>(n: int) -> bool {
    is_absolute_block::<C>(n) && n % 4 == 0
}

/// The first block of the sector that holds block `a`.
pub open spec fn sector_start_of(a: int) -> int {
    a - a % 4
}

/// The position of block `a` within its sector.
pub open spec fn within_sector_of(a: int) -> int {
    a % 4
}

/// Represents capacity of a tag
pub trait TagCapacity: Sized {
    /// Total number of bytes on the tag.
    spec fn capacity_bytes() -> nat;

    /// Every capacity is made of whole 64-byte sectors and holds at most 4 KiB.
    proof fn lemma_layout()
        ensures
            Self::capacity_bytes() % 64 == 0,
            Self::capacity_bytes() <= 4096,
    ;

    fn bytes() -> (r: u16)
        ensures
            r == Self::capacity_bytes(),
    ;

    fn max_sectors() -> (r: u16)
        ensures
            r == Self::capacity_bytes() / 64,
    {
        Self::bytes() / 64
    }

    fn max_blocks() -> (r: u16)
        ensures
            r == Self::capacity_bytes() / 16,
    {
        Self::bytes() / 16
    }
}

/// Tag capacity of 1KiB.
#[derive(Debug, Clone, Copy, Eq, PartialEq, Ord, PartialOrd)]
pub struct Cap1K;

impl TagCapacity for Cap1K {
    open spec fn capacity_bytes() -> nat {
        1024
    }

    proof fn lemma_layout() {
    }

    fn bytes() -> (r: u16) {
        1024
    }
}

/// Tag capacity of 4KiB.
#[derive(Debug, Clone, Copy, Eq, PartialEq, Ord, PartialOrd)]
pub struct Cap4K;

impl TagCapacity for Cap4K {
    open spec fn capacity_bytes() -> nat {
        4096
    }

    proof fn lemma_layout() {
    }

    fn bytes() -> (r: u16) {
        4096
    }
}

/// Represents valid sector number within a Mifare tag of capacity `Cap`.
#[derive(Debug, Copy, Eq, PartialEq, Ord, PartialOrd)]
pub struct SectorNumber<Cap: TagCapacity>(u8, PhantomData<Cap>);

impl<Cap: TagCapacity> Clone for SectorNumber<Cap> {
    fn clone(&self) -> (r: Self)
        ensures
            r == *self,
    {
        proof {
            use_type_invariant(self);
        }
        SectorNumber(self.0, PhantomData)
    }
}

impl<Cap: TagCapacity> SectorNumber<Cap> {
    /// Every value of this type is in range.
    #[verifier::type_invariant]
    pub open spec fn inv(self) -> bool {
        is_sector_number::<Cap>(self.value() as int)
    }

    /// The sector number as an integer.
    pub closed spec fn value(self) -> u8 {
        self.0
    }

    /// Creates SectorNumber while checking for validity.
    pub fn new(sector_number: u8) -> (r: Option<Self>)
        ensures
            r is Some <==> is_sector_number::<Cap>(sector_number as int),
            r matches Some(s) ==> s.value() == sector_number,
    {
        if (sector_number as u16) < Cap::max_sectors() {
            Some(SectorNumber::raw(sector_number))
        } else {
            None
        }
    }

    // Shortcut internal method
    fn raw(val: u8) -> (r: Self)
        requires
            is_sector_number::<Cap>(val as int),
        ensures
            r.value() == val,
    {
        SectorNumber(val, PhantomData)
    }
}


impl<Cap: TagCapacity> From<SectorNumber<Cap>> for u8 {
    fn from(sector_number: SectorNumber<Cap>) -> (r: u8)
        ensures
            r == sector_number.value(),
            is_sector_number::<Cap>(r as int),
    {
        proof {
            use_type_invariant(&sector_number);
        }
        sector_number.0
    }
}

impl<Cap: TagCapacity> vstd::std_specs::convert::FromSpecImpl<SectorNumber<Cap>> for u8 {
    open spec fn obeys_from_spec() -> bool {
        true
    }

    closed spec fn from_spec(v: SectorNumber<Cap>) -> u8 {
        v.value()
    }
}

/// Abbreviation
pub type SectorNumber1K = SectorNumber<Cap1K>;

/// Abbreviation
pub type SectorNumber4K = SectorNumber<Cap4K>;

/// A tag with lower capacity can be safely treated as a tag with greater capacity.
impl From<SectorNumber1K> for SectorNumber4K {
    fn from(sector_number: SectorNumber1K) -> (r: Self)
        ensures
            r.value() == sector_number.value(),
    {
        proof {
            use_type_invariant(&sector_number);
        }
        SectorNumber::raw(sector_number.0)
    }
}

impl vstd::std_specs::convert::FromSpecImpl<SectorNumber1K> for SectorNumber4K {
    open spec fn obeys_from_spec() -> bool {
        true
    }

    closed spec fn from_spec(v: SectorNumber1K) -> SectorNumber4K {
        SectorNumber(v.value(), PhantomData)
    }
}

/// Offset of a data block within a sector.
#[derive(Debug, Clone, Copy, Eq, PartialEq, Ord, PartialOrd)]
pub struct BlockOffset(u8);

impl BlockOffset {
    /// Every value of this type is in range.
    #[verifier::type_invariant]
    pub open spec fn inv(self) -> bool {
        is_block_offset(self.value() as int)
    }

    /// The offset as an integer.
    pub closed spec fn value(self) -> u8 {
        self.0
    }

    /// Creates BlockOffset while checking for validity.
    pub fn new(block_offset: u8) -> (r: Option<Self>)
        ensures
            r is Some <==> is_block_offset(block_offset as int),
            r matches Some(b) ==> b.value() == block_offset,
    {
        if block_offset < 3 {
            Some(BlockOffset(block_offset))
        } else {
            None
        }
    }
}

impl From<BlockOffset> for u8 {
    fn from(block_offset: BlockOffset) -> (r: u8)
        ensures
            r == block_offset.value(),
            is_block_offset(r as int),
    {
        proof {
            use_type_invariant(&block_offset);
        }
        block_offset.0
    }
}

impl vstd::std_specs::convert::FromSpecImpl<BlockOffset> for u8 {
    open spec fn obeys_from_spec() -> bool {
        true
    }

    closed spec fn from_spec(v: BlockOffset) -> u8 {
        v.value()
    }
}

/// Represents absolute Mifare tag address in blocks.
#[derive(Debug, Copy, Eq, PartialEq, Ord, PartialOrd)]
pub struct AbsoluteBlockOffset<Cap: TagCapacity>(u8, PhantomData<Cap>);

impl<Cap: TagCapacity> Clone for AbsoluteBlockOffset<Cap> {
    fn clone(&self) -> (r: Self)
        ensures
            r == *self,
    {
        proof {
            use_type_invariant(self);
        }
        AbsoluteBlockOffset(self.0, PhantomData)
    }
}

impl<Cap: TagCapacity> AbsoluteBlockOffset<Cap> {
    /// Every value of this type is in range.
    #[verifier::type_invariant]
    pub open spec fn inv(self) -> bool {
        is_absolute_block::<Cap>(self.value() as int)
    }

    /// The block address as an integer.
    pub closed spec fn value(self) -> u8 {
        self.0
    }

    /// Creates AbsoluteBlockOffset while checking for validity.
    pub fn new(block_offset: u8) -> (r: Option<Self>)
        ensures
            r is Some <==> is_absolute_block::<Cap>(block_offset as int),
            r matches Some(a) ==> a.value() == block_offset,
    {
        if (block_offset as u16) < Cap::max_blocks() {
            Some(AbsoluteBlockOffset::raw(block_offset))
        } else {
            None
        }
    }

    /// Returns the position of sector start.
    pub fn sector_offset(self) -> (r: SectorBlockOffset<Cap>)
        ensures
            r.value() == sector_start_of(self.value() as int),
    {
        proof {
            use_type_invariant(&self);
        }
        SectorBlockOffset::raw(self.0 - self.0 % 4)
    }

    /// Returns offset from beginning of the sector, or `None` where the block
    /// is the sector trailer, which is no data block.
    pub fn block_within_sector(self) -> (r: Option<BlockOffset>)
        ensures
            r is Some <==> is_block_offset(within_sector_of(self.value() as int)),
            r matches Some(b) ==> b.value() == within_sector_of(self.value() as int),
    {
        BlockOffset::new(self.0 % 4)
    }

    fn raw(val: u8) -> (r: Self)
        requires
            is_absolute_block::<Cap>(val as int),
        ensures
            r.value() == val,
    {
        AbsoluteBlockOffset(val, PhantomData)
    }
}

impl<Cap: TagCapacity> From<AbsoluteBlockOffset<Cap>> for u8 {
    fn from(block_offset: AbsoluteBlockOffset<Cap>) -> (r: u8)
        ensures
            r == block_offset.value(),
            is_absolute_block::<Cap>(r as int),
    {
        proof {
            use_type_invariant(&block_offset);
        }
        block_offset.0
    }
}

impl<Cap: TagCapacity> vstd::std_specs::convert::FromSpecImpl<AbsoluteBlockOffset<Cap>> for u8 {
    open spec fn obeys_from_spec() -> bool {
        true
    }

    closed spec fn from_spec(v: AbsoluteBlockOffset<Cap>) -> u8 {
        v.value()
    }
}

/// Represents sector as block offset.
///
/// Almost same as SectorNumber. The difference is that this one stores pre-calculated
/// offset to avoid re-calculating each time.
#[derive(Debug, Copy, Eq, PartialEq, Ord, PartialOrd)]
pub struct SectorBlockOffset<Cap: TagCapacity>(u8, PhantomData<Cap>);

impl<Cap: TagCapacity> Clone for SectorBlockOffset<Cap> {
    fn clone(&self) -> (r: Self)
        ensures
            r == *self,
    {
        proof {
            use_type_invariant(self);
        }
        SectorBlockOffset(self.0, PhantomData)
    }
}

impl<Cap: TagCapacity> SectorBlockOffset<Cap> {
    /// Every value of this type is in range.
    #[verifier::type_invariant]
    pub open spec fn inv(self) -> bool {
        is_sector_start::<Cap>(self.value() as int)
    }

    /// The address of the sector's first block as an integer.
    pub closed spec fn value(self) -> u8 {
        self.0
    }

    /// Creates SectorBlockOffset while checking for validity.
    pub fn new(block_offset: u8) -> (r: Option<Self>)
        ensures
            r is Some <==> is_sector_start::<Cap>(block_offset as int),
            r matches Some(s) ==> s.value() == block_offset,
    {
        if (block_offset as u16) < Cap::max_blocks() && block_offset % 4 == 0 {
            Some(SectorBlockOffset::raw(block_offset))
        } else {
            None
        }
    }

    /// Returns the address of the sector trailer, the block that holds keys and
    /// access bits.
    pub fn sector_trailer(self) -> (r: AbsoluteBlockOffset<Cap>)
        ensures
            r.value() == self.value() + 3,
    {
        proof {
            use_type_invariant(&self);
            Cap::lemma_layout();
        }
        AbsoluteBlockOffset::raw(self.0 + 3)
    }

    fn raw(val: u8) -> (r: Self)
        requires
            is_sector_start::<Cap>(val as int),
        ensures
            r.value() == val,
    {
        SectorBlockOffset(val, PhantomData)
    }
}

impl<Cap: TagCapacity> From<SectorBlockOffset<Cap>> for u8 {
    fn from(block_offset: SectorBlockOffset<Cap>) -> (r: u8)
        ensures
            r == block_offset.value(),
            is_sector_start::<Cap>(r as int),
    {
        proof {
            use_type_invariant(&block_offset);
        }
        block_offset.0
    }
}

impl<Cap: TagCapacity> vstd::std_specs::convert::FromSpecImpl<SectorBlockOffset<Cap>> for u8 {
    open spec fn obeys_from_spec() -> bool {
        true
    }

    closed spec fn from_spec(v: SectorBlockOffset<Cap>) -> u8 {
        v.value()
    }
}

impl<Cap: TagCapacity> From<SectorBlockOffset<Cap>> for SectorNumber<Cap> {
    fn from(block_offset: SectorBlockOffset<Cap>) -> (r: Self)
        ensures
            r.value() == block_offset.value() / 4,
    {
        proof {
            use_type_invariant(&block_offset);
            Cap::lemma_layout();
        }
        SectorNumber::raw(block_offset.0 / 4)
    }
}

impl<Cap: TagCapacity> vstd::std_specs::convert::FromSpecImpl<SectorBlockOffset<Cap>> for SectorNumber<Cap> {
    open spec fn obeys_from_spec() -> bool {
        true
    }

    closed spec fn from_spec(v: SectorBlockOffset<Cap>) -> SectorNumber<Cap> {
        SectorNumber((v.value() / 4) as u8, PhantomData)
    }
}

impl<Cap: TagCapacity> std::ops::Add<BlockOffset> for SectorBlockOffset<Cap> {
    type Output = AbsoluteBlockOffset<Cap>;

    fn add(self, offset: BlockOffset) -> (r: Self::Output)
        ensures
            r.value() == self.value() + offset.value(),
    {
        proof {
            use_type_invariant(&self);
            use_type_invariant(&offset);
            Cap::lemma_layout();
        }
        let lhs = u8::from(self);
        let rhs = u8::from(offset);
        AbsoluteBlockOffset::raw(lhs + rhs)
    }
}

impl<Cap: TagCapacity> vstd::std_specs::ops::AddSpecImpl<BlockOffset> for SectorBlockOffset<Cap> {
    open spec fn obeys_add_spec() -> bool {
        true
    }

    open spec fn add_req(self, rhs: BlockOffset) -> bool {
        true
    }

    closed spec fn add_spec(self, rhs: BlockOffset) -> AbsoluteBlockOffset<Cap> {
        AbsoluteBlockOffset((self.value() + rhs.value()) as u8, PhantomData)
    }
}

/// A sector of the tag's own capacity starts at four times its number.
impl<Cap: TagCapacity> From<SectorNumber<Cap>> for SectorBlockOffset<Cap> {
    fn from(sector_number: SectorNumber<Cap>) -> (r: Self)
        ensures
            r.value() == sector_number.value() * 4,
    {
        proof {
            use_type_invariant(&sector_number);
            Cap::lemma_layout();
        }
        SectorBlockOffset::raw(sector_number.0 * 4)
    }
}

impl<Cap: TagCapacity> vstd::std_specs::convert::FromSpecImpl<SectorNumber<Cap>> for SectorBlockOffset<Cap> {
    open spec fn obeys_from_spec() -> bool {
        true
    }

    closed spec fn from_spec(v: SectorNumber<Cap>) -> SectorBlockOffset<Cap> {
        SectorBlockOffset((v.value() * 4) as u8, PhantomData)
    }
}

/// A sector of a 1 KiB tag, addressed on a 4 KiB tag.
impl From<SectorNumber1K> for SectorBlockOffset<Cap4K> {
    fn from(sector_number: SectorNumber1K) -> (r: Self)
        ensures
            r.value() == sector_number.value() * 4,
    {
        let widened = SectorNumber4K::from(sector_number);
        SectorBlockOffset::from(widened)
    }
}

impl vstd::std_specs::convert::FromSpecImpl<SectorNumber1K> for SectorBlockOffset<Cap4K> {
    open spec fn obeys_from_spec() -> bool {
        true
    }

    closed spec fn from_spec(v: SectorNumber1K) -> SectorBlockOffset<Cap4K> {
        SectorBlockOffset((v.value() * 4) as u8, PhantomData)
    }
}

/// Splitting a block address into its sector's first block and its position
/// within the sector loses nothing: the two add up to the address again. The
/// sector start is a valid sector start, and the position is a data-block
/// offset unless the block is the sector trailer.
pub proof fn lemma_sector_round_trip<Cap: TagCapacity>(a: int)
    requires
        is_absolute_block::<Cap>(a),
    ensures
        is_sector_start::<Cap>(sector_start_of(a)),
        sector_start_of(a) + within_sector_of(a) == a,
        0 <= within_sector_of(a) <= 3,
        within_sector_of(a) != 3 ==> is_block_offset(within_sector_of(a)),
{
}

/// Every sector number of a 1 KiB tag is a sector number of a 4 KiB tag, with
/// the same value.
pub proof fn lemma_widen_keeps_value(n: int)
    requires
        is_sector_number::<Cap1K>(n),
    ensures
        is_sector_number::<Cap4K>(n),
{
}

/// The trailer of a sector is the block three after its start, always a valid
/// block of the same sector, and no data-block offset added to the sector start
/// reaches it.
pub proof fn lemma_trailer_unreachable<Cap: TagCapacity>(s: int, o: int)
    requires
        is_sector_start::<Cap>(s),
        is_block_offset(o),
    ensures
        is_absolute_block::<Cap>(s + 3),
        sector_start_of(s + 3) == s,
        within_sector_of(s + 3) == 3,
        is_absolute_block::<Cap>(s + o),
        sector_start_of(s + o) == s,
        s + o != s + 3,
{
    Cap::lemma_layout();
}

} // verus!

//! Command layer for Mifare Classic tags: typed block addresses and the
//! authenticate / read / write commands built from them.
use vstd::prelude::*;

/// Typesafe numeric types related to Mifare tags.
pub mod numerics;

pub use numerics::{BlockOffset, SectorNumber1K, SectorNumber4K};
use numerics::{is_block_offset, is_sector_start, AbsoluteBlockOffset, Cap4K, SectorBlockOffset};

verus! {

// Abbreviation
pub type SectorBlockOffset4K = SectorBlockOffset<Cap4K>;

pub type AbsoluteBlockOffset4K = AbsoluteBlockOffset<Cap4K>;

/// Represents NFC tag which could be Mifare tag.
pub trait NFCTag {
    /// Error type of transceive() method.
    type TransceiveError;

    /// The tag's identifier; it stays the same for the tag's whole life.
    /// A verified implementation gives its own definition.
    closed spec fn spec_tag_id(&self) -> Seq<u8> {
        Seq::empty()
    }

    /// Every exchange with the tag so far, oldest first: the request that was
    /// sent and the size of the buffer offered for the response.
    /// A verified implementation gives its own definition.
    closed spec fn exchanges(&self) -> Seq<(Seq<u8>, nat)> {
        Seq::empty()
    }

    /// What each exchange returned, oldest first.
    /// A verified implementation gives its own definition.
    closed spec fn results(&self) -> Seq<Result<usize, Self::TransceiveError>> {
        Seq::empty()
    }

    /// What the response buffer of each exchange held when the exchange
    /// returned, oldest first.
    /// A verified implementation gives its own definition.
    closed spec fn responses(&self) -> Seq<Seq<u8>> {
        Seq::empty()
    }

    /// ID of tag. Must be 4 or 7 for valid Mifare tag.
    fn tag_id(&self) -> (r: &[u8])
        ensures
            r@ == self.spec_tag_id(),
    ;

    /// This function will be used for communication with the tag.
    fn transceive(&mut self, data_to_tag: &[u8], data_from_tag: &mut [u8]) -> (r: Result<
        usize,
        Self::TransceiveError,
    >)
        ensures
            final(self).spec_tag_id() == old(self).spec_tag_id(),
            final(self).exchanges() == old(self).exchanges().push((data_to_tag@, old(data_from_tag)@.len())),
            final(self).results() == old(self).results().push(r),
            final(self).responses() == old(self).responses().push(final(data_from_tag)@),
    ;
}

/// Type used for selecting authentication key.
#[derive(Debug, Copy, Clone, Eq, PartialEq, Structural)]
pub enum KeyOption {
    KeyA,
    KeyB,
}

/// The command byte that authenticates with the given key.
pub open spec fn auth_opcode(key_option: KeyOption) -> u8 {
    match key_option {
        KeyOption::KeyA => 0x60,
        KeyOption::KeyB => 0x61,
    }
}

/// Authenticate request: command byte, sector start, the six key bytes, then the tag id.
pub open spec fn auth_request(key_option: KeyOption, sector_start: u8, key: Seq<u8>, tag_id: Seq<u8>) -> Seq<u8> {
    seq![auth_opcode(key_option), sector_start] + key + tag_id
}

/// Read request for one block.
pub open spec fn read_request(block: u8) -> Seq<u8> {
    seq![0x30u8, block]
}

/// Write request for one block: command byte, block, then the sixteen data bytes.
pub open spec fn write_request(block: u8, data: Seq<u8>) -> Seq<u8> {
    seq![0xA0u8, block] + data
}

/// Whether an identifier of this length can belong to a Mifare tag.
pub open spec fn valid_id_len(len: int) -> bool {
    len == 4 || len == 7
}

/// An authenticate request for a tag with a 4-byte identifier is 12 bytes long,
/// and one for a 7-byte identifier 15 bytes; the identifier's bytes come last.
pub proof fn lemma_auth_request_len(key_option: KeyOption, sector_start: u8, key: Seq<u8>, tag_id: Seq<u8>)
    requires
        key.len() == 6,
        valid_id_len(tag_id.len() as int),
    ensures
        tag_id.len() == 4 ==> auth_request(key_option, sector_start, key, tag_id).len() == 12,
        tag_id.len() == 7 ==> auth_request(key_option, sector_start, key, tag_id).len() == 15,
        auth_request(key_option, sector_start, key, tag_id).subrange(8, 8 + tag_id.len() as int) == tag_id,
{
    assert(auth_request(key_option, sector_start, key, tag_id).subrange(8, 8 + tag_id.len() as int) =~= tag_id);
}

/// A data-block write and a key write in the same sector address different
/// blocks: the block byte of `write_block`'s request is never the trailer that
/// `write_keys` writes.
pub proof fn lemma_data_write_misses_trailer(sector_start: u8, offset: u8, data: Seq<u8>, keys: Seq<u8>)
    requires
        is_sector_start::<Cap4K>(sector_start as int),
        is_block_offset(offset as int),
    ensures
        write_request((sector_start + offset) as u8, data)[1] != write_request((sector_start + 3) as u8, keys)[1],
{
}

/// Builds the authenticate request.
pub fn auth_command(key_option: KeyOption, sector_start: u8, key: &[u8; 6], tag_id: &[u8]) -> (r: Vec<u8>)
    ensures
        r@ == auth_request(key_option, sector_start, key@, tag_id@),
{
    let cmd: u8 = match key_option {
        KeyOption::KeyA => 0x60,
        KeyOption::KeyB => 0x61,
    };
    let mut out: Vec<u8> = Vec::new();
    out.push(cmd);
    out.push(sector_start);
    let mut i: usize = 0;
    while i < 6
        invariant
            0 <= i <= 6,
            out@ == seq![cmd, sector_start] + key@.subrange(0, i as int),
        decreases 6 - i,
    {
        out.push(key[i]);
        i = i + 1;
    }
    assert(key@.subrange(0, 6) =~= key@);
    let n = tag_id.len();
    let mut j: usize = 0;
    while j < n
        invariant
            0 <= j <= n,
            n == tag_id@.len(),
            out@ == seq![cmd, sector_start] + key@ + tag_id@.subrange(0, j as int),
        decreases n - j,
    {
        out.push(tag_id[j]);
        j = j + 1;
    }
    assert(tag_id@.subrange(0, n as int) =~= tag_id@);
    out
}

/// Builds the read request for one block.
pub fn read_command(block: u8) -> (r: Vec<u8>)
    ensures
        r@ == read_request(block),
{
    let mut out: Vec<u8> = Vec::new();
    out.push(0x30);
    out.push(block);
    assert(out@ =~= read_request(block));
    out
}

/// Builds the write request for one block.
pub fn write_command(block: u8, data: &[u8; 16]) -> (r: Vec<u8>)
    ensures
        r@ == write_request(block, data@),
{
    let mut out: Vec<u8> = Vec::new();
    out.push(0xA0);
    out.push(block);
    let mut i: usize = 0;
    while i < 16
        invariant
            0 <= i <= 16,
            out@ == seq![0xA0u8, block] + data@.subrange(0, i as int),
        decreases 16 - i,
    {
        out.push(data[i]);
        i = i + 1;
    }
    assert(data@.subrange(0, 16) =~= data@);
    out
}

/// Encapsulates Mifare tag.
pub struct MifareTag<T: NFCTag> {
    tag: T,
}

impl<T: NFCTag> MifareTag<T> {
    /// The transport that this handle owns.
    pub closed spec fn transport(&self) -> T {
        self.tag
    }

    /// `next` is this handle after one more exchange with the same tag, which
    /// sent `request` and offered a buffer of `response_len` bytes for the reply.
    pub open spec fn sent_next(self, request: Seq<u8>, response_len: nat, next: MifareTag<T>) -> bool {
        &&& next.transport().spec_tag_id() == self.transport().spec_tag_id()
        &&& next.transport().exchanges() == self.transport().exchanges().push((request, response_len))
        &&& next.transport().results() == self.transport().results().push(next.last_result())
        &&& next.transport().responses() == self.transport().responses().push(next.last_response())
    }

    /// What the latest exchange with the tag returned.
    pub open spec fn last_result(self) -> Result<usize, T::TransceiveError> {
        self.transport().results().last()
    }

    /// What the response buffer of the latest exchange held when it returned.
    pub open spec fn last_response(self) -> Seq<u8> {
        self.transport().responses().last()
    }

    /// Checks whether tag_id has correct length and creates MifareTag.
    pub fn new(tag: T) -> (r: Option<Self>)
        ensures
            r is Some <==> valid_id_len(tag.spec_tag_id().len() as int),
            r matches Some(m) ==> m.transport() == tag,
    {
        let id_len = tag.tag_id().len();
        if id_len == 4 || id_len == 7 {
            Some(MifareTag { tag: tag })
        } else {
            None
        }
    }

    /// Authenticates to sector using key.
    ///
    /// The authenticate request is sent whatever the outcome; a tag that refuses
    /// the key shows it as a transport error, which is returned unchanged.
    pub fn authenticate_sector<'s>(
        &'s mut self,
        sector_offset: SectorBlockOffset4K,
        key_option: KeyOption,
        key: &[u8; 6],
    ) -> (r: Result<AuthenticatedSector<'s, T>, T::TransceiveError>)
        ensures
            r matches Ok(a) ==> {
                &&& a.sector() == sector_offset
                &&& is_sector_start::<Cap4K>(a.sector().value() as int)
                &&& a.handle().last_result() is Ok
                &&& old(self).sent_next(
                    auth_request(key_option, sector_offset.value(), key@, old(self).transport().spec_tag_id()),
                    16,
                    a.handle(),
                )
            },
            r is Err ==> old(self).sent_next(
                auth_request(key_option, sector_offset.value(), key@, old(self).transport().spec_tag_id()),
                16,
                *final(self),
            ),
            r matches Err(e) ==> final(self).last_result() == Err::<usize, T::TransceiveError>(e),
    {
        let tag_id = self.tag.tag_id();
        let auth_cmd = auth_command(key_option, u8::from(sector_offset), key, tag_id);
        let mut resp = [0u8; 16];
        match self.tag.transceive(auth_cmd.as_slice(), &mut resp) {
            Ok(_) => Ok(AuthenticatedSector { tag: self, sector_offset: sector_offset }),
            Err(e) => Err(e),
        }
    }

    /// Returns id of underlying tag.
    pub fn tag_id(&self) -> (r: &[u8])
        ensures
            r@ == self.transport().spec_tag_id(),
    {
        self.tag.tag_id()
    }
}

/// Reference to authenticated sector.
/// When sector is authenticated, you can perform reading and writing.
pub struct AuthenticatedSector<'a, T: NFCTag> {
    tag: &'a mut MifareTag<T>,
    sector_offset: SectorBlockOffset4K,
}

impl<'a, T: NFCTag> AuthenticatedSector<'a, T> {
    /// The sector that was authenticated.
    pub closed spec fn sector(&self) -> SectorBlockOffset4K {
        self.sector_offset
    }

    /// The tag handle as it stands now.
    pub closed spec fn handle(&self) -> MifareTag<T> {
        *self.tag
    }

    /// Reads 16 bytes of data from given block of this sector into `buf`.
    pub fn read_block(&mut self, offset: BlockOffset, buf: &mut [u8]) -> (r: Result<(), T::TransceiveError>)
        ensures
            final(self).sector() == old(self).sector(),
            old(self).handle().sent_next(
                read_request((old(self).sector().value() + offset.value()) as u8),
                old(buf)@.len(),
                final(self).handle(),
            ),
            final(buf)@ == final(self).handle().last_response(),
            is_sector_start::<Cap4K>(final(self).sector().value() as int),
            r is Ok <==> final(self).handle().last_result() is Ok,
            r matches Err(e) ==> final(self).handle().last_result() == Err::<usize, T::TransceiveError>(e),
    {
        proof {
            use_type_invariant(&self.sector_offset);
        }
        let block = self.sector_offset + offset;
        let read_cmd = read_command(u8::from(block));
        match self.tag.tag.transceive(read_cmd.as_slice(), buf) {
            Ok(_) => Ok(()),
            Err(e) => Err(e),
        }
    }

    fn write_block_raw(&mut self, offset: AbsoluteBlockOffset4K, data: &[u8; 16]) -> (r: Result<(), T::TransceiveError>)
        ensures
            final(self).sector() == old(self).sector(),
            old(self).handle().sent_next(write_request(offset.value(), data@), 16, final(self).handle()),
            is_sector_start::<Cap4K>(final(self).sector().value() as int),
            r is Ok <==> final(self).handle().last_result() is Ok,
            r matches Err(e) ==> final(self).handle().last_result() == Err::<usize, T::TransceiveError>(e),
    {
        proof {
            use_type_invariant(&self.sector_offset);
        }
        let write_cmd = write_command(u8::from(offset), data);
        let mut resp = [0u8; 16];
        match self.tag.tag.transceive(write_cmd.as_slice(), &mut resp) {
            Ok(_) => Ok(()),
            Err(e) => Err(e),
        }
    }

    /// Writes 16 bytes of data to given block
    ///
    /// The offset names one of the three data blocks, so the sector trailer
    /// cannot be written through this method.
    ///
    /// WARNING: By writing incorrect values, you may permanently damage the tag!
    pub fn write_block(&mut self, offset: BlockOffset, data: &[u8; 16]) -> (r: Result<(), T::TransceiveError>)
        ensures
            final(self).sector() == old(self).sector(),
            old(self).handle().sent_next(
                write_request((old(self).sector().value() + offset.value()) as u8, data@),
                16,
                final(self).handle(),
            ),
            is_sector_start::<Cap4K>(final(self).sector().value() as int),
            r is Ok <==> final(self).handle().last_result() is Ok,
            r matches Err(e) ==> final(self).handle().last_result() == Err::<usize, T::TransceiveError>(e),
    {
        let offset = self.sector_offset + offset;
        self.write_block_raw(offset, data)
    }

    /// Writes keys as well as access bits
    ///
    /// WARNING: By writing incorrect values, you may permanently damage the tag!
    pub fn write_keys(&mut self, data: &[u8; 16]) -> (r: Result<(), T::TransceiveError>)
        ensures
            final(self).sector() == old(self).sector(),
            old(self).handle().sent_next(
                write_request((old(self).sector().value() + 3) as u8, data@),
                16,
                final(self).handle(),
            ),
            is_sector_start::<Cap4K>(final(self).sector().value() as int),
            r is Ok <==> final(self).handle().last_result() is Ok,
            r matches Err(e) ==> final(self).handle().last_result() == Err::<usize, T::TransceiveError>(e),
    {
        let offset = self.sector_offset.sector_trailer();
        self.write_block_raw(offset, data)
    }
}

} // verus!

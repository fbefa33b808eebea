//! The cursor store: two records, each a 4-byte little-endian counter, that a
//! run loads at its start and replaces at its end.
use vstd::prelude::*;
use byteorder::{ByteOrder, LittleEndian};
use crate::crawl::{Checkpoint, Cursor};

verus! {

/// The value of the first four bytes of `b`, least significant first.
pub open spec fn le_u32(b: Seq<u8>) -> nat {
    b[0] as nat + 256 * (b[1] as nat) + 65536 * (b[2] as nat) + 16777216 * (b[3] as nat)
}

/// The counter a stored record holds: none when the record is absent or
/// shorter than four bytes.
pub open spec fn record_value(record: Option<Seq<u8>>) -> Option<u32> {
    match record {
        Some(b) => if b.len() >= 4 {
            Some(le_u32(b) as u32)
        } else {
            None
        },
        None => None,
    }
}

pub open spec fn record_view(record: Option<Vec<u8>>) -> Option<Seq<u8>> {
    match record {
        Some(b) => Some(b@),
        None => None,
    }
}

/// Relies on `byteorder::LittleEndian::read_u32`: the first four bytes as a
/// little-endian integer (it panics on fewer).
#[verifier::external_body]
fn read_u32_le(buf: &[u8]) -> (r: u32)
    requires
        buf@.len() >= 4,
    ensures
        r as nat == le_u32(buf@),
{
    LittleEndian::read_u32(buf)
}

/// Relies on `byteorder::LittleEndian::write_u32`: stores `n` in the first four
/// bytes, least significant first (it panics on fewer).
#[verifier::external_body]
fn write_u32_le(buf: &mut [u8], n: u32)
    requires
        old(buf)@.len() >= 4,
    ensures
        final(buf)@.len() == old(buf)@.len(),
        le_u32(final(buf)@) == n as nat,
        final(buf)@.skip(4) == old(buf)@.skip(4),
{
    LittleEndian::write_u32(buf, n)
}

/// Reads the counter of a stored record.
pub fn decode_record(record: &Option<Vec<u8>>) -> (r: Option<u32>)
    ensures
        r == record_value(record_view(*record)),
{
    match record {
        Some(b) => if b.len() >= 4 {
            Some(read_u32_le(b.as_slice()))
        } else {
            None
        },
        None => None,
    }
}

/// The record that stores `n`.
pub fn encode_record(n: u32) -> (r: Vec<u8>)
    ensures
        r@.len() == 4,
        record_value(Some(r@)) == Some(n),
{
    let mut buf: Vec<u8> = vec![0u8, 0u8, 0u8, 0u8];
    write_u32_le(buf.as_mut_slice(), n);
    buf
}

/// The two records of the cursor: absent until first written.
pub struct CursorStore {
    pub last_page: Option<Vec<u8>>,
    pub last_post: Option<Vec<u8>>,
}

impl CursorStore {
    /// The page last scanned, if recorded.
    pub fn get_last_page(&self) -> (r: Option<u32>)
        ensures
            r == record_value(record_view(self.last_page)),
    {
        decode_record(&self.last_page)
    }

    /// Records the page last scanned, replacing what was there.
    pub fn set_last_page(&mut self, page: u32)
        ensures
            final(self).last_page is Some,
            final(self).last_page->Some_0@.len() == 4,
            record_value(record_view(final(self).last_page)) == Some(page),
            final(self).last_post == old(self).last_post,
    {
        self.last_page = Some(encode_record(page));
    }

    /// The highest post id delivered, if recorded.
    pub fn get_last_sent_post(&self) -> (r: Option<u32>)
        ensures
            r == record_value(record_view(self.last_post)),
    {
        decode_record(&self.last_post)
    }

    /// Records the highest post id delivered, replacing what was there.
    pub fn set_last_sent_post(&mut self, post: u32)
        ensures
            final(self).last_post is Some,
            final(self).last_post->Some_0@.len() == 4,
            record_value(record_view(final(self).last_post)) == Some(post),
            final(self).last_page == old(self).last_page,
    {
        self.last_post = Some(encode_record(post));
    }

    /// The cursor that a run starts from.
    pub fn load(&self) -> (r: Cursor)
        ensures
            r.last_page == record_value(record_view(self.last_page)),
            r.last_sent_id == record_value(record_view(self.last_post)),
    {
        Cursor { last_page: self.get_last_page(), last_sent_id: self.get_last_sent_post() }
    }

    /// Writes the checkpoint that a run ends with.
    pub fn save(&mut self, checkpoint: &Checkpoint)
        ensures
            final(self).load_spec() == (Cursor {
                last_page: Some(checkpoint.page),
                last_sent_id: Some(checkpoint.last_sent_id),
            }),
    {
        self.set_last_page(checkpoint.page);
        self.set_last_sent_post(checkpoint.last_sent_id);
    }

    pub open spec fn load_spec(&self) -> Cursor {
        Cursor {
            last_page: record_value(record_view(self.last_page)),
            last_sent_id: record_value(record_view(self.last_post)),
        }
    }
}

} // verus!

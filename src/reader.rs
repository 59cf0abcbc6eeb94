use crate::error::SaveError;
use crate::le::{le_sint, le_uint, read_i16, read_i32, read_i64, read_u128, read_u16, read_u32, read_u64};
use vstd::prelude::*;
use vstd::slice::{slice_subrange, slice_to_vec};
use vstd::utf8::{decode_utf8, valid_utf8};

verus! {

/// The `n` bytes of `data` that start at `pos`, and the position after them.
pub open spec fn bytes_at(data: Seq<u8>, pos: int, n: int) -> Result<(Seq<u8>, int), SaveError> {
    if 0 <= pos && 0 <= n && pos + n <= data.len() {
        Ok((data.subrange(pos, pos + n), pos + n))
    } else {
        Err(SaveError::BoundsError)
    }
}

pub open spec fn u8_at(data: Seq<u8>, pos: int) -> Result<(u8, int), SaveError> {
    match bytes_at(data, pos, 1) {
        Ok((b, e)) => Ok((b[0], e)),
        Err(er) => Err(er),
    }
}

pub open spec fn u16_at(data: Seq<u8>, pos: int) -> Result<(u16, int), SaveError> {
    match bytes_at(data, pos, 2) {
        Ok((b, e)) => Ok((le_uint(b) as u16, e)),
        Err(er) => Err(er),
    }
}

pub open spec fn i16_at(data: Seq<u8>, pos: int) -> Result<(i16, int), SaveError> {
    match bytes_at(data, pos, 2) {
        Ok((b, e)) => Ok((le_sint(b) as i16, e)),
        Err(er) => Err(er),
    }
}

pub open spec fn u32_at(data: Seq<u8>, pos: int) -> Result<(u32, int), SaveError> {
    match bytes_at(data, pos, 4) {
        Ok((b, e)) => Ok((le_uint(b) as u32, e)),
        Err(er) => Err(er),
    }
}

pub open spec fn i32_at(data: Seq<u8>, pos: int) -> Result<(i32, int), SaveError> {
    match bytes_at(data, pos, 4) {
        Ok((b, e)) => Ok((le_sint(b) as i32, e)),
        Err(er) => Err(er),
    }
}

pub open spec fn u64_at(data: Seq<u8>, pos: int) -> Result<(u64, int), SaveError> {
    match bytes_at(data, pos, 8) {
        Ok((b, e)) => Ok((le_uint(b) as u64, e)),
        Err(er) => Err(er),
    }
}

pub open spec fn i64_at(data: Seq<u8>, pos: int) -> Result<(i64, int), SaveError> {
    match bytes_at(data, pos, 8) {
        Ok((b, e)) => Ok((le_sint(b) as i64, e)),
        Err(er) => Err(er),
    }
}

pub open spec fn u128_at(data: Seq<u8>, pos: int) -> Result<(u128, int), SaveError> {
    match bytes_at(data, pos, 16) {
        Ok((b, e)) => Ok((le_uint(b) as u128, e)),
        Err(er) => Err(er),
    }
}

/// A string: a signed 32-bit little-endian length, then that many UTF-8 bytes.
/// A negative length asks for more bytes than any buffer holds.
pub open spec fn string_at(data: Seq<u8>, pos: int) -> Result<(Seq<char>, int), SaveError> {
    match i32_at(data, pos) {
        Err(er) => Err(er),
        Ok((len, p)) => match bytes_at(data, p, len as int) {
            Err(er) => Err(er),
            Ok((b, e)) => if valid_utf8(b) {
                Ok((decode_utf8(b), e))
            } else {
                Err(SaveError::EncodingError)
            },
        },
    }
}

/// `r` is what `expected` describes: on success its view, with the cursor at
/// the end position; on failure the same error.
pub open spec fn outcome<T: View>(r: Result<T, SaveError>, expected: Result<(T::V, int), SaveError>, pos: int) -> bool {
    match expected {
        Ok((v, end)) => r matches Ok(x) && x@ == v && pos == end,
        Err(e) => r == Err::<T, SaveError>(e),
    }
}

/// Relies on `String::from_utf8`: it accepts exactly the valid UTF-8 byte
/// strings and keeps the characters that they encode.
#[verifier::external_body]
fn utf8_string(b: Vec<u8>) -> (r: Option<String>)
    ensures
        r is Some <==> valid_utf8(b@),
        r matches Some(s) ==> s@ == decode_utf8(b@),
{
    String::from_utf8(b).ok()
}

/// The bytes of one save file and a read position in its decompressed body.
#[derive(Debug)]
pub struct TempSaveData {
    filename: String,
    filesize: u64,
    header: Vec<u8>,
    compressed_data: Vec<u8>,
    decompressed_data: Vec<u8>,
    cursor: usize,
}

impl TempSaveData {
    /// The decompressed bytes that the cursor walks.
    pub closed spec fn data(&self) -> Seq<u8> {
        self.decompressed_data@
    }

    /// The cursor: the offset of the next byte to read.
    pub closed spec fn pos(&self) -> int {
        self.cursor as int
    }

    /// The bytes of the file that have not been decompressed yet.
    pub closed spec fn compressed(&self) -> Seq<u8> {
        self.compressed_data@
    }

    /// The name that the file was handed over under.
    pub closed spec fn file_name(&self) -> Seq<char> {
        self.filename@
    }

    /// The size that the file was declared to have.
    pub closed spec fn file_size(&self) -> u64 {
        self.filesize
    }

    /// The opaque header, once split off.
    pub closed spec fn header_bytes(&self) -> Seq<u8> {
        self.header@
    }

    /// Holds a whole file, not yet split or decompressed.
    pub fn new_bytes(file_name: String, file_size: u64, file_data: &[u8]) -> (r: TempSaveData)
        ensures
            r.file_name() == file_name@,
            r.file_size() == file_size,
            r.compressed() == file_data@,
            r.header_bytes() == Seq::<u8>::empty(),
            r.data() == Seq::<u8>::empty(),
            r.pos() == 0,
    {
        TempSaveData {
            filename: file_name,
            filesize: file_size,
            header: Vec::new(),
            compressed_data: slice_to_vec(file_data),
            decompressed_data: Vec::new(),
            cursor: 0,
        }
    }

    /// Holds bytes that are already decompressed, with the cursor at their start.
    pub fn new_decompressed(data: Vec<u8>) -> (r: TempSaveData)
        ensures
            r.compressed() == Seq::<u8>::empty(),
            r.data() == data@,
            r.pos() == 0,
    {
        TempSaveData {
            filename: String::new(),
            filesize: 0,
            header: Vec::new(),
            compressed_data: Vec::new(),
            decompressed_data: data,
            cursor: 0,
        }
    }

    /// The cursor's offset.
    pub fn cursor(&self) -> (r: usize)
        ensures
            r as int == self.pos(),
    {
        self.cursor
    }

    /// The whole file as it was handed over, before decompression.
    pub(crate) fn compressed_bytes(&self) -> (r: &[u8])
        ensures
            r@ == self.compressed(),
    {
        self.compressed_data.as_slice()
    }

    /// Makes `data` the buffer to read, from its start.
    pub(crate) fn set_decompressed(&mut self, header: Vec<u8>, data: Vec<u8>)
        ensures
            final(self).header_bytes() == header@,
            final(self).compressed() == Seq::<u8>::empty(),
            final(self).data() == data@,
            final(self).pos() == 0,
    {
        self.header = header;
        self.compressed_data = Vec::new();
        self.decompressed_data = data;
        self.cursor = 0;
    }

    /// The next `x` bytes. Fails, with the cursor left where it was, when
    /// fewer remain; else the cursor moves on by exactly `x`.
    pub fn get_next_x(&mut self, x: u64) -> (r: Result<Vec<u8>, SaveError>)
        ensures
            final(self).data() == old(self).data(),
            outcome(r, bytes_at(old(self).data(), old(self).pos(), x as int), final(self).pos()),
            r is Err ==> final(self).pos() == old(self).pos(),
            old(self).pos() + x > old(self).data().len() ==> r == Err::<Vec<u8>, SaveError>(SaveError::BoundsError),
            r matches Ok(v) ==> v@.len() == x && final(self).pos() == old(self).pos() + x,
    {
        let len = self.decompressed_data.len();
        if self.cursor > len || (x as u128) > ((len - self.cursor) as u128) {
            return Err(SaveError::BoundsError);
        }
        let end = self.cursor + x as usize;
        let d = slice_to_vec(slice_subrange(self.decompressed_data.as_slice(), self.cursor, end));
        self.cursor = end;
        Ok(d)
    }

    pub fn get_next_u8(&mut self) -> (r: Result<u8, SaveError>)
        ensures
            final(self).data() == old(self).data(),
            old(self).pos() + 1 > old(self).data().len() ==> r == Err::<u8, SaveError>(SaveError::BoundsError),
            r is Err ==> final(self).pos() == old(self).pos(),
            r is Ok ==> final(self).pos() == old(self).pos() + 1,
            outcome(r, u8_at(old(self).data(), old(self).pos()), final(self).pos()),
    {
        let d = self.get_next_x(1)?;
        Ok(d[0])
    }

    pub fn get_next_u16(&mut self) -> (r: Result<u16, SaveError>)
        ensures
            final(self).data() == old(self).data(),
            old(self).pos() + 2 > old(self).data().len() ==> r == Err::<u16, SaveError>(SaveError::BoundsError),
            r is Err ==> final(self).pos() == old(self).pos(),
            r is Ok ==> final(self).pos() == old(self).pos() + 2,
            outcome(r, u16_at(old(self).data(), old(self).pos()), final(self).pos()),
    {
        let d = self.get_next_x(2)?;
        Ok(read_u16(d.as_slice()))
    }

    pub fn get_next_i16(&mut self) -> (r: Result<i16, SaveError>)
        ensures
            final(self).data() == old(self).data(),
            old(self).pos() + 2 > old(self).data().len() ==> r == Err::<i16, SaveError>(SaveError::BoundsError),
            r is Err ==> final(self).pos() == old(self).pos(),
            r is Ok ==> final(self).pos() == old(self).pos() + 2,
            outcome(r, i16_at(old(self).data(), old(self).pos()), final(self).pos()),
    {
        let d = self.get_next_x(2)?;
        Ok(read_i16(d.as_slice()))
    }

    pub fn get_next_u32(&mut self) -> (r: Result<u32, SaveError>)
        ensures
            final(self).data() == old(self).data(),
            old(self).pos() + 4 > old(self).data().len() ==> r == Err::<u32, SaveError>(SaveError::BoundsError),
            r is Err ==> final(self).pos() == old(self).pos(),
            r is Ok ==> final(self).pos() == old(self).pos() + 4,
            outcome(r, u32_at(old(self).data(), old(self).pos()), final(self).pos()),
    {
        let d = self.get_next_x(4)?;
        Ok(read_u32(d.as_slice()))
    }

    pub fn get_next_i32(&mut self) -> (r: Result<i32, SaveError>)
        ensures
            final(self).data() == old(self).data(),
            old(self).pos() + 4 > old(self).data().len() ==> r == Err::<i32, SaveError>(SaveError::BoundsError),
            r is Err ==> final(self).pos() == old(self).pos(),
            r is Ok ==> final(self).pos() == old(self).pos() + 4,
            outcome(r, i32_at(old(self).data(), old(self).pos()), final(self).pos()),
    {
        let d = self.get_next_x(4)?;
        Ok(read_i32(d.as_slice()))
    }

    pub fn get_next_u64(&mut self) -> (r: Result<u64, SaveError>)
        ensures
            final(self).data() == old(self).data(),
            old(self).pos() + 8 > old(self).data().len() ==> r == Err::<u64, SaveError>(SaveError::BoundsError),
            r is Err ==> final(self).pos() == old(self).pos(),
            r is Ok ==> final(self).pos() == old(self).pos() + 8,
            outcome(r, u64_at(old(self).data(), old(self).pos()), final(self).pos()),
    {
        let d = self.get_next_x(8)?;
        Ok(read_u64(d.as_slice()))
    }

    pub fn get_next_i64(&mut self) -> (r: Result<i64, SaveError>)
        ensures
            final(self).data() == old(self).data(),
            old(self).pos() + 8 > old(self).data().len() ==> r == Err::<i64, SaveError>(SaveError::BoundsError),
            r is Err ==> final(self).pos() == old(self).pos(),
            r is Ok ==> final(self).pos() == old(self).pos() + 8,
            outcome(r, i64_at(old(self).data(), old(self).pos()), final(self).pos()),
    {
        let d = self.get_next_x(8)?;
        Ok(read_i64(d.as_slice()))
    }

    pub fn get_next_u128(&mut self) -> (r: Result<u128, SaveError>)
        ensures
            final(self).data() == old(self).data(),
            old(self).pos() + 16 > old(self).data().len() ==> r == Err::<u128, SaveError>(SaveError::BoundsError),
            r is Err ==> final(self).pos() == old(self).pos(),
            r is Ok ==> final(self).pos() == old(self).pos() + 16,
            outcome(r, u128_at(old(self).data(), old(self).pos()), final(self).pos()),
    {
        let d = self.get_next_x(16)?;
        Ok(read_u128(d.as_slice()))
    }

    /// The bit pattern of the next little-endian IEEE-754 single-precision
    /// float (`f32::from_bits` gives the number).
    pub fn get_next_f32(&mut self) -> (r: Result<u32, SaveError>)
        ensures
            final(self).data() == old(self).data(),
            old(self).pos() + 4 > old(self).data().len() ==> r == Err::<u32, SaveError>(SaveError::BoundsError),
            r is Err ==> final(self).pos() == old(self).pos(),
            r is Ok ==> final(self).pos() == old(self).pos() + 4,
            outcome(r, u32_at(old(self).data(), old(self).pos()), final(self).pos()),
    {
        self.get_next_u32()
    }

    pub fn get_next_string(&mut self) -> (r: Result<String, SaveError>)
        ensures
            final(self).data() == old(self).data(),
            outcome(r, string_at(old(self).data(), old(self).pos()), final(self).pos()),
            r is Err ==> final(self).pos() == old(self).pos(),
    {
        let start = self.cursor;
        let len = self.get_next_i32()?;
        if len < 0 {
            self.cursor = start;
            return Err(SaveError::BoundsError);
        }
        let d = match self.get_next_x(len as u64) {
            Ok(d) => d,
            Err(e) => {
                self.cursor = start;
                return Err(e);
            },
        };
        match utf8_string(d) {
            Some(s) => Ok(s),
            None => {
                self.cursor = start;
                Err(SaveError::EncodingError)
            },
        }
    }
}

} // verus!

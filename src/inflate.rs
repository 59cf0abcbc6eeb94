use crate::error::SaveError;
use crate::reader::TempSaveData;
use vstd::prelude::*;
use vstd::slice::{slice_subrange, slice_to_vec};

verus! {

/// What inflating `compressed` as one zlib stream gives: the bytes, or
/// nothing when the stream is malformed or truncated.
pub uninterp spec fn zlib_inflate(compressed: Seq<u8>) -> Option<Seq<u8>>;

/// Relies on flate2's `read::ZlibDecoder`, read to the end with
/// `Read::read_to_end`: it yields the inflated bytes of the zlib stream, or an
/// error when the stream is corrupt or incomplete; the outcome depends on the
/// input bytes alone.
#[verifier::external_body]
fn inflate(compressed: &[u8]) -> (r: Option<Vec<u8>>)
    ensures
        match zlib_inflate(compressed@) {
            Some(d) => r matches Some(v) && v@ == d,
            None => r is None,
        },
{
    let mut out = Vec::new();
    match std::io::Read::read_to_end(&mut flate2::read::ZlibDecoder::new(compressed), &mut out) {
        Ok(_) => Some(out),
        Err(_) => None,
    }
}

/// Length of the opaque header in front of the compressed body.
pub const HEADER_LEN: usize = 16;

/// The decompressed body of a whole save file: its bytes after the opaque
/// header, inflated.
pub open spec fn body_of(file: Seq<u8>) -> Result<Seq<u8>, SaveError> {
    if file.len() < HEADER_LEN {
        Err(SaveError::BoundsError)
    } else {
        match zlib_inflate(file.subrange(HEADER_LEN as int, file.len() as int)) {
            Some(body) => Ok(body),
            None => Err(SaveError::DecompressionError),
        }
    }
}

impl TempSaveData {
    /// Splits off the opaque header and inflates the rest; the cursor then
    /// stands at the start of the inflated bytes. On failure nothing changes.
    pub fn decompress(&mut self) -> (r: Result<(), SaveError>)
        ensures
            match body_of(old(self).compressed()) {
                Ok(body) => r is Ok && final(self).data() == body && final(self).pos() == 0
                    && final(self).header_bytes() == old(self).compressed().subrange(0, HEADER_LEN as int),
                Err(e) => r == Err::<(), SaveError>(e) && *final(self) == *old(self),
            },
    {
        let file = self.compressed_bytes();
        let len = file.len();
        if len < HEADER_LEN {
            return Err(SaveError::BoundsError);
        }
        let header = slice_to_vec(slice_subrange(file, 0, HEADER_LEN));
        let body = slice_subrange(file, HEADER_LEN, len);
        match inflate(body) {
            Some(data) => {
                self.set_decompressed(header, data);
                Ok(())
            },
            None => Err(SaveError::DecompressionError),
        }
    }
}

} // verus!

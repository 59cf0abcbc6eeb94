use crate::error::SaveError;
use crate::grammar::decompressed_data_at;
use crate::inflate::body_of;
use crate::reader::TempSaveData;
use crate::records::{DecompressedData, DecompressedDataModel};
use vstd::prelude::*;

verus! {

/// The record tree that a whole save file decodes to: the header is split
/// off, the body inflated and read from its start. Bytes after the tree are
/// left unread.
pub open spec fn decoded_save(file: Seq<u8>) -> Result<DecompressedDataModel, SaveError> {
    match body_of(file) {
        Err(e) => Err(e),
        Ok(body) => match decompressed_data_at(body, 0) {
            Err(e) => Err(e),
            Ok((tree, _end)) => Ok(tree),
        },
    }
}

/// One save file: its bytes until it is loaded, its record tree after.
#[derive(Debug)]
pub struct Save {
    pub name: String,
    pub temp_save_data: Option<TempSaveData>,
    pub structured_data: Option<DecompressedData>,
}

impl Save {
    pub fn new_bytes(file_name: String, file_size: u64, file_data: &[u8]) -> (r: Save)
        ensures
            r.name@ == file_name@,
            r.temp_save_data matches Some(t) && t.compressed() == file_data@ && t.pos() == 0
                && t.file_name() == file_name@ && t.file_size() == file_size,
            r.structured_data is None,
    {
        let temp = TempSaveData::new_bytes(file_name.clone(), file_size, file_data);
        Save { name: file_name, temp_save_data: Some(temp), structured_data: None }
    }

    /// Decodes the file in one pass. On success the tree is stored and the
    /// file's bytes are released; on failure no tree is stored.
    pub fn load(&mut self) -> (r: Result<(), SaveError>)
        requires
            old(self).temp_save_data is Some,
        ensures
            final(self).name == old(self).name,
            final(self).temp_save_data is None,
            match decoded_save(old(self).temp_save_data->0.compressed()) {
                Ok(tree) => r is Ok && (final(self).structured_data matches Some(d) && d@ == tree),
                Err(e) => r == Err::<(), SaveError>(e) && final(self).structured_data == old(self).structured_data,
            },
    {
        let mut tsd = match self.temp_save_data.take() {
            Some(t) => t,
            None => return Err(SaveError::BoundsError),
        };
        tsd.decompress()?;
        let tree = DecompressedData::deserialize(&mut tsd)?;
        self.structured_data = Some(tree);
        Ok(())
    }
}

} // verus!

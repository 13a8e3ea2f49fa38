//! The logical union of the classic and zip64 end-of-central-directory
//! records.
//!
//! A zip64 archive stores the real counts and offsets in the zip64 record;
//! a classic archive in the 32-bit one.  An archive may also carry an
//! implicit prefix (for instance a self-extractor stub), in which case
//! every stored offset is short by the prefix length; the combined record
//! detects that from where the records actually stood and carries the
//! correction.

use vstd::prelude::*;
use crate::error::{Error, FormatError};
use crate::records::{EndOfCentralDirectory64Record, EndOfCentralDirectoryRecord};

verus! {

/// A record together with the file offset it was found at.
#[derive(Clone, Debug)]
pub struct Located<T> {
    /// Offset of the record in the file.
    pub offset: u64,
    /// The record itself.
    pub inner: T,
}

/// The combined end-of-central-directory view.
#[derive(Clone, Debug)]
pub struct EndOfCentralDirectory {
    /// The classic record.
    pub dir: Located<EndOfCentralDirectoryRecord>,
    /// The zip64 record, when the archive has one.
    pub dir64: Option<Located<EndOfCentralDirectory64Record>>,
    /// Length of the archive's implicit prefix, as a wrapping difference:
    /// adding it (wrapping) to a stored offset gives a real file offset.
    pub global_offset: u64,
    /// The real file offset of the first central directory record.
    pub directory_offset: u64,
}

impl EndOfCentralDirectory {
    /// The offset the records themselves claim the directory starts at.
    pub open spec fn spec_stored_offset(
        dir: Located<EndOfCentralDirectoryRecord>,
        dir64: Option<Located<EndOfCentralDirectory64Record>>,
    ) -> u64 {
        match dir64 {
            Some(d) => d.inner.directory_offset,
            None => dir.inner.directory_offset as u64,
        }
    }

    /// The declared size of the central directory.
    pub open spec fn spec_directory_size(
        dir: Located<EndOfCentralDirectoryRecord>,
        dir64: Option<Located<EndOfCentralDirectory64Record>>,
    ) -> u64 {
        match dir64 {
            Some(d) => d.inner.directory_size,
            None => dir.inner.directory_size as u64,
        }
    }

    /// The file offset of the outermost end record: the directory must end
    /// right there.
    pub open spec fn spec_located_offset(
        dir: Located<EndOfCentralDirectoryRecord>,
        dir64: Option<Located<EndOfCentralDirectory64Record>>,
    ) -> u64 {
        match dir64 {
            Some(d) => d.offset,
            None => dir.offset,
        }
    }

    /// Where the directory really starts: right before the end record.
    /// When that disagrees with the stored offset, the archive carries an
    /// implicit prefix and the computed position wins.
    pub open spec fn spec_computed_offset(
        dir: Located<EndOfCentralDirectoryRecord>,
        dir64: Option<Located<EndOfCentralDirectory64Record>>,
    ) -> u64 {
        vstd::wrapping::u64_specs::wrapping_sub(
            Self::spec_located_offset(dir, dir64),
            Self::spec_directory_size(dir, dir64),
        )
    }

    /// The directory offset the combined view settles on: the computed
    /// position when it lies inside the file and disagrees with the stored
    /// one, the stored one otherwise.
    pub open spec fn spec_effective_offset(
        size: u64,
        dir: Located<EndOfCentralDirectoryRecord>,
        dir64: Option<Located<EndOfCentralDirectory64Record>>,
    ) -> u64 {
        let stored = Self::spec_stored_offset(dir, dir64);
        let computed = Self::spec_computed_offset(dir, dir64);
        if computed < size && stored != computed {
            computed
        } else {
            stored
        }
    }

    /// Builds the combined view and validates that the directory offset
    /// falls inside the file.
    pub fn new(
        size: u64,
        dir: Located<EndOfCentralDirectoryRecord>,
        dir64: Option<Located<EndOfCentralDirectory64Record>>,
    ) -> (r: Result<EndOfCentralDirectory, Error>)
        ensures
            ({
                let stored = Self::spec_stored_offset(dir, dir64);
                let computed = Self::spec_computed_offset(dir, dir64);
                let adjust = computed < size && stored != computed;
                let effective = Self::spec_effective_offset(size, dir, dir64);
                match r {
                    Ok(e) => {
                        &&& effective < size
                        &&& e.directory_offset == effective
                        &&& e.global_offset == if adjust {
                            vstd::wrapping::u64_specs::wrapping_sub(computed, stored)
                        } else {
                            0
                        }
                        &&& e.dir == dir
                        &&& e.dir64 == dir64
                    },
                    Err(er) => {
                        &&& effective >= size
                        &&& er == Error::Format(FormatError::DirectoryOffsetPointsOutsideFile)
                    },
                }
            }),
    {
        let stored = match &dir64 {
            Some(d) => d.inner.directory_offset,
            None => dir.inner.directory_offset as u64,
        };
        let directory_size = match &dir64 {
            Some(d) => d.inner.directory_size,
            None => dir.inner.directory_size as u64,
        };
        let located = match &dir64 {
            Some(d) => d.offset,
            None => dir.offset,
        };
        let computed = located.wrapping_sub(directory_size);
        let mut directory_offset = stored;
        let mut global_offset: u64 = 0;
        if computed < size && stored != computed {
            // the archive has a prefix: every stored offset is short by
            // the same amount
            global_offset = computed.wrapping_sub(stored);
            directory_offset = computed;
        }
        if directory_offset >= size {
            return Err(Error::Format(FormatError::DirectoryOffsetPointsOutsideFile));
        }
        Ok(EndOfCentralDirectory { dir, dir64, global_offset, directory_offset })
    }

    /// The total number of central directory records the archive declares.
    pub open spec fn spec_directory_records(self) -> u64 {
        match self.dir64 {
            Some(d) => d.inner.directory_records,
            None => self.dir.inner.directory_records as u64,
        }
    }

    /// The total number of central directory records the archive declares.
    pub fn directory_records(&self) -> (r: u64)
        ensures
            r == self.spec_directory_records(),
    {
        match &self.dir64 {
            Some(d) => d.inner.directory_records,
            None => self.dir.inner.directory_records as u64,
        }
    }

    /// The raw archive comment bytes.
    pub fn comment(&self) -> (r: &Vec<u8>)
        ensures
            r == self.dir.inner.comment,
    {
        &self.dir.inner.comment
    }
}

} // verus!

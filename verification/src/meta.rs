//! Resolved filesystem metadata as plain values.
//!
//! The outside world stats a path and hands the library the raw findings:
//! type flags, the read-only bit, the size, the optional unix fields and the
//! modification time as seconds since the epoch.  `FileMeta` carries them;
//! `Row` pairs them with the path they were resolved for.

use vstd::prelude::*;
use crate::model::RowV;

verus! {

/// The `type` column's classification of a filesystem entry.
#[derive(Clone, Copy, PartialEq, Eq, Structural, Debug)]
pub enum FileType {
    Dir,
    File,
    Symlink,
    Unspecified,
}

impl FileType {
    /// The column text for each classification.
    pub open spec fn name_spec(self) -> Seq<char> {
        match self {
            FileType::Dir => "dir"@,
            FileType::File => "file"@,
            FileType::Symlink => "symlink"@,
            FileType::Unspecified => "unspecified"@,
        }
    }

    /// Classification from a stat's type flags.  Precedence: directory
    /// first, then symbolic link, then regular file; anything else is
    /// unspecified.
    pub open spec fn classify(is_dir: bool, is_symlink: bool, is_file: bool) -> FileType {
        if is_dir {
            FileType::Dir
        } else if is_symlink {
            FileType::Symlink
        } else if is_file {
            FileType::File
        } else {
            FileType::Unspecified
        }
    }

    pub fn from_flags(is_dir: bool, is_symlink: bool, is_file: bool) -> (t: FileType)
        ensures
            t == FileType::classify(is_dir, is_symlink, is_file),
    {
        if is_dir {
            FileType::Dir
        } else if is_symlink {
            FileType::Symlink
        } else if is_file {
            FileType::File
        } else {
            FileType::Unspecified
        }
    }

    pub fn name(&self) -> (r: &str)
        ensures
            r@ == self.name_spec(),
    {
        match self {
            FileType::Dir => "dir",
            FileType::File => "file",
            FileType::Symlink => "symlink",
            FileType::Unspecified => "unspecified",
        }
    }
}

/// What the modification time column holds for a given non-negative offset
/// from the epoch: the seconds, or null where the offset is absent
/// (modification time predates the epoch) or does not fit a signed 64-bit
/// count.
pub open spec fn mtime_spec(since_epoch: Option<u64>) -> Option<i64> {
    match since_epoch {
        Option::None => Option::None,
        Option::Some(s) => if s <= i64::MAX as u64 {
            Option::Some(s as i64)
        } else {
            Option::None
        },
    }
}

/// One path's resolved metadata, as plain values.  The unix-only fields are
/// optional: a platform without those concepts supplies `None` for all four.
#[derive(Clone, Copy)]
pub struct FileMeta {
    pub file_type: FileType,
    pub read_only: bool,
    pub mode: Option<u32>,
    pub nlink: Option<u64>,
    pub len: u64,
    pub uid: Option<u32>,
    pub gid: Option<u32>,
    pub mtime: Option<i64>,
}

impl FileMeta {
    /// Builds the record from raw stat findings.  `mtime_since_epoch` is the
    /// modification time as whole seconds since the epoch, absent when the
    /// recorded time predates the epoch; it lands in the `mtime` column as
    /// `mtime_spec` says.
    pub fn new(
        file_type: FileType,
        read_only: bool,
        mode: Option<u32>,
        nlink: Option<u64>,
        len: u64,
        uid: Option<u32>,
        gid: Option<u32>,
        mtime_since_epoch: Option<u64>,
    ) -> (m: FileMeta)
        ensures
            m.file_type == file_type,
            m.read_only == read_only,
            m.mode == mode,
            m.nlink == nlink,
            m.len == len,
            m.uid == uid,
            m.gid == gid,
            m.mtime == mtime_spec(mtime_since_epoch),
    {
        let mtime: Option<i64> = match mtime_since_epoch {
            Option::None => Option::None,
            Option::Some(s) => if s <= 0x7fff_ffff_ffff_ffff {
                Option::Some(s as i64)
            } else {
                Option::None
            },
        };
        FileMeta { file_type, read_only, mode, nlink, len, uid, gid, mtime }
    }

    pub fn file_type(&self) -> (t: FileType)
        ensures
            t == self.file_type,
    {
        self.file_type
    }

    pub fn read_only(&self) -> (r: bool)
        ensures
            r == self.read_only,
    {
        self.read_only
    }

    pub fn mode(&self) -> (r: Option<u32>)
        ensures
            r == self.mode,
    {
        self.mode
    }

    pub fn nlink(&self) -> (r: Option<u64>)
        ensures
            r == self.nlink,
    {
        self.nlink
    }

    pub fn uid(&self) -> (r: Option<u32>)
        ensures
            r == self.uid,
    {
        self.uid
    }

    pub fn gid(&self) -> (r: Option<u32>)
        ensures
            r == self.gid,
    {
        self.gid
    }
}

/// One input line's worth of work: the path and what resolving it found.
pub struct Row {
    pub path: String,
    pub meta: FileMeta,
}

impl Row {
    /// The nine column values this row contributes.
    pub open spec fn row_v(self) -> RowV {
        RowV {
            path: self.path@,
            ftype: self.meta.file_type.name_spec(),
            read_only: self.meta.read_only,
            mode: self.meta.mode,
            nlink: self.meta.nlink,
            len: self.meta.len,
            uid: self.meta.uid,
            gid: self.meta.gid,
            mtime: self.meta.mtime,
        }
    }
}

/// The column values of a sequence of rows.
pub open spec fn rows_v(s: Seq<Row>) -> Seq<RowV> {
    s.map_values(|r: Row| r.row_v())
}

} // verus!

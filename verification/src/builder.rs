//! The nine per-column accumulators, as one aggregate.
//!
//! Each `append_` operation appends one cell to one column; `finish_`
//! drains one column into an immutable array and leaves that column ready
//! for a fresh batch; `is_empty` reports whether any row has been appended
//! since the last finish.  The aggregate's ghost view is a `ColsV`, and a
//! well-formed builder keeps all nine columns the same length.

use vstd::prelude::*;
use crate::columns::{
    bb_nulls, bb_rows, bool_builder_append, bool_builder_finish, bool_builder_new, sb_nulls,
    sb_rows, text_builder_append, text_builder_finish, text_builder_len, text_builder_new,
    ts_arr_plain, ts_arr_rows, ts_builder_append, ts_builder_finish, ts_builder_new, tsb_plain,
    tsb_rows, u32_arr_rows, u32_builder_append, u32_builder_finish, u32_builder_new, u32b_rows,
    u64_arr_rows, u64_builder_append, u64_builder_finish, u64_builder_new, u64b_rows,
    bool_arr_nulls, bool_arr_rows, str_arr_nulls, str_arr_rows, BoolCol, BoolColBuilder, TextCol,
    TextColBuilder, TsCol, TsColBuilder, U32Col, U32ColBuilder, U64Col, U64ColBuilder,
};
use crate::model::{utf8_len_col, utf8_len_str, ColsV};

verus! {

/// The nine independent column accumulators, one per output field.
pub struct Builder {
    pub path: TextColBuilder,
    pub file_type: TextColBuilder,
    pub read_only: BoolColBuilder,
    pub mode: U32ColBuilder,
    pub nlink: U64ColBuilder,
    pub len: U64ColBuilder,
    pub uid: U32ColBuilder,
    pub gid: U32ColBuilder,
    pub mtime: TsColBuilder,
}

impl Builder {
    /// What the nine accumulators hold.
    pub open spec fn cols(self) -> ColsV {
        ColsV {
            paths: sb_rows(self.path),
            types: sb_rows(self.file_type),
            read_onlys: bb_rows(self.read_only),
            modes: u32b_rows(self.mode),
            nlinks: u64b_rows(self.nlink),
            lens: u64b_rows(self.len),
            uids: u32b_rows(self.uid),
            gids: u32b_rows(self.gid),
            mtimes: tsb_rows(self.mtime),
        }
    }

    pub open spec fn nrows(self) -> int {
        self.cols().nrows()
    }

    /// Well-formed: equal column lengths, no null slot in the non-nullable
    /// columns, and a plain seconds timestamp column.
    pub open spec fn wf(self) -> bool {
        &&& self.cols().wf()
        &&& sb_nulls(self.path) == 0
        &&& sb_nulls(self.file_type) == 0
        &&& bb_nulls(self.read_only) == 0
        &&& tsb_plain(self.mtime)
    }

    /// Nine fresh, empty accumulators.
    pub fn new() -> (b: Builder)
        ensures
            b.wf(),
            b.cols() == ColsV::empty(),
    {
        Builder {
            path: text_builder_new(),
            file_type: text_builder_new(),
            read_only: bool_builder_new(),
            mode: u32_builder_new(),
            nlink: u64_builder_new(),
            len: u64_builder_new(),
            uid: u32_builder_new(),
            gid: u32_builder_new(),
            mtime: ts_builder_new(),
        }
    }

    pub fn append_path(&mut self, p: String)
        requires
            utf8_len_col(sb_rows(old(self).path)) + utf8_len_str(p@) <= 0x7fff_ffff,
        ensures
            sb_rows(final(self).path) == sb_rows(old(self).path).push(p@),
            sb_nulls(final(self).path) == sb_nulls(old(self).path),
            final(self).file_type == old(self).file_type,
            final(self).read_only == old(self).read_only,
            final(self).mode == old(self).mode,
            final(self).nlink == old(self).nlink,
            final(self).len == old(self).len,
            final(self).uid == old(self).uid,
            final(self).gid == old(self).gid,
            final(self).mtime == old(self).mtime,
    {
        text_builder_append(&mut self.path, p.as_str());
    }

    pub fn append_type(&mut self, t: &str)
        requires
            utf8_len_col(sb_rows(old(self).file_type)) + utf8_len_str(t@) <= 0x7fff_ffff,
        ensures
            sb_rows(final(self).file_type) == sb_rows(old(self).file_type).push(t@),
            sb_nulls(final(self).file_type) == sb_nulls(old(self).file_type),
            final(self).path == old(self).path,
            final(self).read_only == old(self).read_only,
            final(self).mode == old(self).mode,
            final(self).nlink == old(self).nlink,
            final(self).len == old(self).len,
            final(self).uid == old(self).uid,
            final(self).gid == old(self).gid,
            final(self).mtime == old(self).mtime,
    {
        text_builder_append(&mut self.file_type, t);
    }

    pub fn append_read_only(&mut self, r: bool)
        ensures
            bb_rows(final(self).read_only) == bb_rows(old(self).read_only).push(r),
            bb_nulls(final(self).read_only) == bb_nulls(old(self).read_only),
            final(self).path == old(self).path,
            final(self).file_type == old(self).file_type,
            final(self).mode == old(self).mode,
            final(self).nlink == old(self).nlink,
            final(self).len == old(self).len,
            final(self).uid == old(self).uid,
            final(self).gid == old(self).gid,
            final(self).mtime == old(self).mtime,
    {
        bool_builder_append(&mut self.read_only, r);
    }

    pub fn append_mode(&mut self, m: Option<u32>)
        ensures
            u32b_rows(final(self).mode) == u32b_rows(old(self).mode).push(m),
            final(self).path == old(self).path,
            final(self).file_type == old(self).file_type,
            final(self).read_only == old(self).read_only,
            final(self).nlink == old(self).nlink,
            final(self).len == old(self).len,
            final(self).uid == old(self).uid,
            final(self).gid == old(self).gid,
            final(self).mtime == old(self).mtime,
    {
        u32_builder_append(&mut self.mode, m);
    }

    pub fn append_nlink(&mut self, l: Option<u64>)
        ensures
            u64b_rows(final(self).nlink) == u64b_rows(old(self).nlink).push(l),
            final(self).path == old(self).path,
            final(self).file_type == old(self).file_type,
            final(self).read_only == old(self).read_only,
            final(self).mode == old(self).mode,
            final(self).len == old(self).len,
            final(self).uid == old(self).uid,
            final(self).gid == old(self).gid,
            final(self).mtime == old(self).mtime,
    {
        u64_builder_append(&mut self.nlink, l);
    }

    /// The size column is non-nullable: every appended cell is a value.
    pub fn append_len(&mut self, l: u64)
        ensures
            u64b_rows(final(self).len) == u64b_rows(old(self).len).push(Some(l)),
            final(self).path == old(self).path,
            final(self).file_type == old(self).file_type,
            final(self).read_only == old(self).read_only,
            final(self).mode == old(self).mode,
            final(self).nlink == old(self).nlink,
            final(self).uid == old(self).uid,
            final(self).gid == old(self).gid,
            final(self).mtime == old(self).mtime,
    {
        u64_builder_append(&mut self.len, Some(l));
    }

    pub fn append_uid(&mut self, l: Option<u32>)
        ensures
            u32b_rows(final(self).uid) == u32b_rows(old(self).uid).push(l),
            final(self).path == old(self).path,
            final(self).file_type == old(self).file_type,
            final(self).read_only == old(self).read_only,
            final(self).mode == old(self).mode,
            final(self).nlink == old(self).nlink,
            final(self).len == old(self).len,
            final(self).gid == old(self).gid,
            final(self).mtime == old(self).mtime,
    {
        u32_builder_append(&mut self.uid, l);
    }

    pub fn append_gid(&mut self, l: Option<u32>)
        ensures
            u32b_rows(final(self).gid) == u32b_rows(old(self).gid).push(l),
            final(self).path == old(self).path,
            final(self).file_type == old(self).file_type,
            final(self).read_only == old(self).read_only,
            final(self).mode == old(self).mode,
            final(self).nlink == old(self).nlink,
            final(self).len == old(self).len,
            final(self).uid == old(self).uid,
            final(self).mtime == old(self).mtime,
    {
        u32_builder_append(&mut self.gid, l);
    }

    pub fn append_mtime(&mut self, t: Option<i64>)
        ensures
            tsb_rows(final(self).mtime) == tsb_rows(old(self).mtime).push(t),
            tsb_plain(final(self).mtime) == tsb_plain(old(self).mtime),
            final(self).path == old(self).path,
            final(self).file_type == old(self).file_type,
            final(self).read_only == old(self).read_only,
            final(self).mode == old(self).mode,
            final(self).nlink == old(self).nlink,
            final(self).len == old(self).len,
            final(self).uid == old(self).uid,
            final(self).gid == old(self).gid,
    {
        ts_builder_append(&mut self.mtime, t);
    }

    /// Whether no row has been appended since the last finish, read off the
    /// path column.
    pub fn is_empty(&self) -> (r: bool)
        ensures
            r == (self.cols().paths.len() == 0),
    {
        text_builder_len(&self.path) == 0
    }

    pub fn finish_path(&mut self) -> (a: TextCol)
        ensures
            str_arr_rows(a) == sb_rows(old(self).path),
            str_arr_nulls(a) == sb_nulls(old(self).path),
            sb_rows(final(self).path) == Seq::<Seq<char>>::empty(),
            sb_nulls(final(self).path) == 0,
            final(self).file_type == old(self).file_type,
            final(self).read_only == old(self).read_only,
            final(self).mode == old(self).mode,
            final(self).nlink == old(self).nlink,
            final(self).len == old(self).len,
            final(self).uid == old(self).uid,
            final(self).gid == old(self).gid,
            final(self).mtime == old(self).mtime,
    {
        text_builder_finish(&mut self.path)
    }

    pub fn finish_type(&mut self) -> (a: TextCol)
        ensures
            str_arr_rows(a) == sb_rows(old(self).file_type),
            str_arr_nulls(a) == sb_nulls(old(self).file_type),
            sb_rows(final(self).file_type) == Seq::<Seq<char>>::empty(),
            sb_nulls(final(self).file_type) == 0,
            final(self).path == old(self).path,
            final(self).read_only == old(self).read_only,
            final(self).mode == old(self).mode,
            final(self).nlink == old(self).nlink,
            final(self).len == old(self).len,
            final(self).uid == old(self).uid,
            final(self).gid == old(self).gid,
            final(self).mtime == old(self).mtime,
    {
        text_builder_finish(&mut self.file_type)
    }

    pub fn finish_read_only(&mut self) -> (a: BoolCol)
        ensures
            bool_arr_rows(a) == bb_rows(old(self).read_only),
            bool_arr_nulls(a) == bb_nulls(old(self).read_only),
            bb_rows(final(self).read_only) == Seq::<bool>::empty(),
            bb_nulls(final(self).read_only) == 0,
            final(self).path == old(self).path,
            final(self).file_type == old(self).file_type,
            final(self).mode == old(self).mode,
            final(self).nlink == old(self).nlink,
            final(self).len == old(self).len,
            final(self).uid == old(self).uid,
            final(self).gid == old(self).gid,
            final(self).mtime == old(self).mtime,
    {
        bool_builder_finish(&mut self.read_only)
    }

    pub fn finish_mode(&mut self) -> (a: U32Col)
        ensures
            u32_arr_rows(a) == u32b_rows(old(self).mode),
            u32b_rows(final(self).mode) == Seq::<Option<u32>>::empty(),
            final(self).path == old(self).path,
            final(self).file_type == old(self).file_type,
            final(self).read_only == old(self).read_only,
            final(self).nlink == old(self).nlink,
            final(self).len == old(self).len,
            final(self).uid == old(self).uid,
            final(self).gid == old(self).gid,
            final(self).mtime == old(self).mtime,
    {
        u32_builder_finish(&mut self.mode)
    }

    pub fn finish_nlink(&mut self) -> (a: U64Col)
        ensures
            u64_arr_rows(a) == u64b_rows(old(self).nlink),
            u64b_rows(final(self).nlink) == Seq::<Option<u64>>::empty(),
            final(self).path == old(self).path,
            final(self).file_type == old(self).file_type,
            final(self).read_only == old(self).read_only,
            final(self).mode == old(self).mode,
            final(self).len == old(self).len,
            final(self).uid == old(self).uid,
            final(self).gid == old(self).gid,
            final(self).mtime == old(self).mtime,
    {
        u64_builder_finish(&mut self.nlink)
    }

    pub fn finish_len(&mut self) -> (a: U64Col)
        ensures
            u64_arr_rows(a) == u64b_rows(old(self).len),
            u64b_rows(final(self).len) == Seq::<Option<u64>>::empty(),
            final(self).path == old(self).path,
            final(self).file_type == old(self).file_type,
            final(self).read_only == old(self).read_only,
            final(self).mode == old(self).mode,
            final(self).nlink == old(self).nlink,
            final(self).uid == old(self).uid,
            final(self).gid == old(self).gid,
            final(self).mtime == old(self).mtime,
    {
        u64_builder_finish(&mut self.len)
    }

    pub fn finish_uid(&mut self) -> (a: U32Col)
        ensures
            u32_arr_rows(a) == u32b_rows(old(self).uid),
            u32b_rows(final(self).uid) == Seq::<Option<u32>>::empty(),
            final(self).path == old(self).path,
            final(self).file_type == old(self).file_type,
            final(self).read_only == old(self).read_only,
            final(self).mode == old(self).mode,
            final(self).nlink == old(self).nlink,
            final(self).len == old(self).len,
            final(self).gid == old(self).gid,
            final(self).mtime == old(self).mtime,
    {
        u32_builder_finish(&mut self.uid)
    }

    pub fn finish_gid(&mut self) -> (a: U32Col)
        ensures
            u32_arr_rows(a) == u32b_rows(old(self).gid),
            u32b_rows(final(self).gid) == Seq::<Option<u32>>::empty(),
            final(self).path == old(self).path,
            final(self).file_type == old(self).file_type,
            final(self).read_only == old(self).read_only,
            final(self).mode == old(self).mode,
            final(self).nlink == old(self).nlink,
            final(self).len == old(self).len,
            final(self).uid == old(self).uid,
            final(self).mtime == old(self).mtime,
    {
        u32_builder_finish(&mut self.gid)
    }

    pub fn finish_mtime(&mut self) -> (a: TsCol)
        ensures
            ts_arr_rows(a) == tsb_rows(old(self).mtime),
            ts_arr_plain(a) == tsb_plain(old(self).mtime),
            tsb_rows(final(self).mtime) == Seq::<Option<i64>>::empty(),
            tsb_plain(final(self).mtime) == tsb_plain(old(self).mtime),
            final(self).path == old(self).path,
            final(self).file_type == old(self).file_type,
            final(self).read_only == old(self).read_only,
            final(self).mode == old(self).mode,
            final(self).nlink == old(self).nlink,
            final(self).len == old(self).len,
            final(self).uid == old(self).uid,
            final(self).gid == old(self).gid,
    {
        ts_builder_finish(&mut self.mtime)
    }
}

} // verus!

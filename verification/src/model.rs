//! Mathematical model of rows and column sets.
//!
//! A yielded batch is nine equal-length columns.  `RowV` is one row at the
//! specification level; `ColsV` is the nine columns of an accumulator or a
//! finished batch.  The byte-length functions track how many UTF-8 bytes a
//! text column occupies, which bounds what a 32-bit-offset string column can
//! hold.

use vstd::prelude::*;

verus! {

/// One output row: the nine column values derived from a path and its
/// resolved metadata.
pub ghost struct RowV {
    pub path: Seq<char>,
    pub ftype: Seq<char>,
    pub read_only: bool,
    pub mode: Option<u32>,
    pub nlink: Option<u64>,
    pub len: u64,
    pub uid: Option<u32>,
    pub gid: Option<u32>,
    pub mtime: Option<i64>,
}

/// The nine columns, each a sequence with one entry per appended row.
/// `lens` is modelled as optional only because the underlying column
/// representation admits nulls; a well-formed column set has none there.
#[verifier::ext_equal]
pub ghost struct ColsV {
    pub paths: Seq<Seq<char>>,
    pub types: Seq<Seq<char>>,
    pub read_onlys: Seq<bool>,
    pub modes: Seq<Option<u32>>,
    pub nlinks: Seq<Option<u64>>,
    pub lens: Seq<Option<u64>>,
    pub uids: Seq<Option<u32>>,
    pub gids: Seq<Option<u32>>,
    pub mtimes: Seq<Option<i64>>,
}

impl ColsV {
    pub open spec fn empty() -> ColsV {
        ColsV {
            paths: Seq::empty(),
            types: Seq::empty(),
            read_onlys: Seq::empty(),
            modes: Seq::empty(),
            nlinks: Seq::empty(),
            lens: Seq::empty(),
            uids: Seq::empty(),
            gids: Seq::empty(),
            mtimes: Seq::empty(),
        }
    }

    /// Number of rows, read off the path column.
    pub open spec fn nrows(self) -> int {
        self.paths.len() as int
    }

    /// All nine columns have the same length, and the size column, though
    /// stored in a nullable representation, holds no null.
    pub open spec fn wf(self) -> bool {
        &&& self.types.len() == self.paths.len()
        &&& self.read_onlys.len() == self.paths.len()
        &&& self.modes.len() == self.paths.len()
        &&& self.nlinks.len() == self.paths.len()
        &&& self.lens.len() == self.paths.len()
        &&& self.uids.len() == self.paths.len()
        &&& self.gids.len() == self.paths.len()
        &&& self.mtimes.len() == self.paths.len()
        &&& forall|i: int| 0 <= i < self.lens.len() ==> self.lens[i] is Some
    }

    /// One row appended to every column.
    pub open spec fn push(self, r: RowV) -> ColsV {
        ColsV {
            paths: self.paths.push(r.path),
            types: self.types.push(r.ftype),
            read_onlys: self.read_onlys.push(r.read_only),
            modes: self.modes.push(r.mode),
            nlinks: self.nlinks.push(r.nlink),
            lens: self.lens.push(Some(r.len)),
            uids: self.uids.push(r.uid),
            gids: self.gids.push(r.gid),
            mtimes: self.mtimes.push(r.mtime),
        }
    }

    /// A whole sequence of rows appended to every column, in order.
    pub open spec fn add(self, rs: Seq<RowV>) -> ColsV {
        ColsV {
            paths: self.paths + rs.map_values(|r: RowV| r.path),
            types: self.types + rs.map_values(|r: RowV| r.ftype),
            read_onlys: self.read_onlys + rs.map_values(|r: RowV| r.read_only),
            modes: self.modes + rs.map_values(|r: RowV| r.mode),
            nlinks: self.nlinks + rs.map_values(|r: RowV| r.nlink),
            lens: self.lens + rs.map_values(|r: RowV| Some(r.len)),
            uids: self.uids + rs.map_values(|r: RowV| r.uid),
            gids: self.gids + rs.map_values(|r: RowV| r.gid),
            mtimes: self.mtimes + rs.map_values(|r: RowV| r.mtime),
        }
    }

    /// Columns of `self` followed by columns of `o`.
    pub open spec fn cat(self, o: ColsV) -> ColsV {
        ColsV {
            paths: self.paths + o.paths,
            types: self.types + o.types,
            read_onlys: self.read_onlys + o.read_onlys,
            modes: self.modes + o.modes,
            nlinks: self.nlinks + o.nlinks,
            lens: self.lens + o.lens,
            uids: self.uids + o.uids,
            gids: self.gids + o.gids,
            mtimes: self.mtimes + o.mtimes,
        }
    }
}

pub proof fn lemma_add_empty(c: ColsV)
    ensures
        c.add(Seq::empty()) == c,
{
    assert(c.add(Seq::empty()) =~~= c);
}

/// Appending the first `i + 1` rows is appending the first `i` and then
/// pushing row `i`.
pub proof fn lemma_add_take_step(c: ColsV, rs: Seq<RowV>, i: int)
    requires
        0 <= i < rs.len(),
    ensures
        c.add(rs.take(i + 1)) == c.add(rs.take(i)).push(rs[i]),
{
    assert(rs.take(i + 1) =~= rs.take(i).push(rs[i]));
    assert(c.add(rs.take(i + 1)) =~~= c.add(rs.take(i)).push(rs[i]));
}

/// Two instalments appended to fresh columns, laid end to end, are their
/// concatenation appended to fresh columns.
pub proof fn lemma_cat_add(a: Seq<RowV>, b: Seq<RowV>)
    ensures
        ColsV::empty().add(a).cat(ColsV::empty().add(b)) == ColsV::empty().add(a + b),
{
    assert(ColsV::empty().add(a).cat(ColsV::empty().add(b)) =~~= ColsV::empty().add(a + b));
}

/// Appending rows to a well-formed column set keeps it well-formed.
pub proof fn lemma_add_wf(c: ColsV, rs: Seq<RowV>)
    requires
        c.wf(),
    ensures
        c.add(rs).wf(),
        c.add(rs).nrows() == c.nrows() + rs.len(),
{
    let a = c.add(rs);
    assert forall|i: int| 0 <= i < a.lens.len() implies a.lens[i] is Some by {
        if i >= c.lens.len() {
            assert(a.lens[i] == rs.map_values(|r: RowV| Some(r.len))[i - c.lens.len()]);
        }
    }
}

/// Law: rows resolved on a platform without the mode, nlink, uid and gid
/// concepts (all four absent in every row) accumulate into columns whose
/// four platform slots are null in every position, while the other five
/// columns hold the resolved values as usual.
pub proof fn lemma_platform_fields_null(rs: Seq<RowV>)
    requires
        forall|i: int|
            0 <= i < rs.len() ==> (#[trigger] rs[i]).mode is None && rs[i].nlink is None
                && rs[i].uid is None && rs[i].gid is None,
    ensures
        forall|i: int| 0 <= i < rs.len() ==> #[trigger] ColsV::empty().add(rs).modes[i] is None,
        forall|i: int| 0 <= i < rs.len() ==> #[trigger] ColsV::empty().add(rs).nlinks[i] is None,
        forall|i: int| 0 <= i < rs.len() ==> #[trigger] ColsV::empty().add(rs).uids[i] is None,
        forall|i: int| 0 <= i < rs.len() ==> #[trigger] ColsV::empty().add(rs).gids[i] is None,
        forall|i: int| 0 <= i < rs.len() ==> #[trigger] ColsV::empty().add(rs).paths[i] == rs[i].path,
        forall|i: int| 0 <= i < rs.len() ==> #[trigger] ColsV::empty().add(rs).types[i] == rs[i].ftype,
        forall|i: int|
            0 <= i < rs.len() ==> #[trigger] ColsV::empty().add(rs).read_onlys[i] == rs[i].read_only,
        forall|i: int| 0 <= i < rs.len() ==> #[trigger] ColsV::empty().add(rs).lens[i] == Some(rs[i].len),
        forall|i: int| 0 <= i < rs.len() ==> #[trigger] ColsV::empty().add(rs).mtimes[i] == rs[i].mtime,
{
    let a = ColsV::empty().add(rs);
    assert forall|i: int| 0 <= i < rs.len() implies #[trigger] a.modes[i] is None && a.nlinks[i]
        is None && a.uids[i] is None && a.gids[i] is None && a.paths[i] == rs[i].path
        && a.types[i] == rs[i].ftype && a.read_onlys[i] == rs[i].read_only && a.lens[i] == Some(
        rs[i].len,
    ) && a.mtimes[i] == rs[i].mtime by {
        assert(a.modes[i] == rs.map_values(|r: RowV| r.mode)[i]);
        assert(a.nlinks[i] == rs.map_values(|r: RowV| r.nlink)[i]);
        assert(a.uids[i] == rs.map_values(|r: RowV| r.uid)[i]);
        assert(a.gids[i] == rs.map_values(|r: RowV| r.gid)[i]);
        assert(a.paths[i] == rs.map_values(|r: RowV| r.path)[i]);
        assert(a.types[i] == rs.map_values(|r: RowV| r.ftype)[i]);
        assert(a.read_onlys[i] == rs.map_values(|r: RowV| r.read_only)[i]);
        assert(a.lens[i] == rs.map_values(|r: RowV| Some(r.len))[i]);
        assert(a.mtimes[i] == rs.map_values(|r: RowV| r.mtime)[i]);
    }
}

/// How many bytes the UTF-8 encoding of one character takes.
pub open spec fn utf8_len_char(c: char) -> nat {
    if (c as u32) < 0x80 {
        1
    } else if (c as u32) < 0x800 {
        2
    } else if (c as u32) < 0x10000 {
        3
    } else {
        4
    }
}

/// How many bytes the UTF-8 encoding of a string takes.
pub open spec fn utf8_len_str(s: Seq<char>) -> nat
    decreases s.len(),
{
    if s.len() == 0 {
        0
    } else {
        utf8_len_str(s.drop_last()) + utf8_len_char(s.last())
    }
}

/// Total UTF-8 bytes of every entry of a text column.
pub open spec fn utf8_len_col(col: Seq<Seq<char>>) -> nat
    decreases col.len(),
{
    if col.len() == 0 {
        0
    } else {
        utf8_len_col(col.drop_last()) + utf8_len_str(col.last())
    }
}

pub proof fn lemma_utf8_len_col_push(col: Seq<Seq<char>>, s: Seq<char>)
    ensures
        utf8_len_col(col.push(s)) == utf8_len_col(col) + utf8_len_str(s),
{
    assert(col.push(s).drop_last() =~= col);
    assert(col.push(s).last() == s);
}

pub proof fn lemma_utf8_len_col_concat(a: Seq<Seq<char>>, b: Seq<Seq<char>>)
    ensures
        utf8_len_col(a + b) == utf8_len_col(a) + utf8_len_col(b),
    decreases b.len(),
{
    if b.len() == 0 {
        assert(a + b =~= a);
    } else {
        lemma_utf8_len_col_concat(a, b.drop_last());
        assert((a + b).drop_last() =~= a + b.drop_last());
        assert((a + b).last() == b.last());
    }
}

/// A contiguous part of a column takes no more bytes than the whole.
pub proof fn lemma_utf8_sub_bound(parts: Seq<Seq<char>>, a: int, b: int)
    requires
        0 <= a <= b <= parts.len(),
    ensures
        utf8_len_col(parts.subrange(a, b)) <= utf8_len_col(parts),
{
    assert(parts =~= (parts.take(a) + parts.subrange(a, b)) + parts.skip(b));
    lemma_utf8_len_col_concat(parts.take(a) + parts.subrange(a, b), parts.skip(b));
    lemma_utf8_len_col_concat(parts.take(a), parts.subrange(a, b));
}

/// The bytes of a column prefix, plus the bytes of the next entry, never
/// exceed the bytes of the whole column.
pub proof fn lemma_utf8_prefix_bound(c0: Seq<Seq<char>>, parts: Seq<Seq<char>>, i: int)
    requires
        0 <= i < parts.len(),
    ensures
        utf8_len_col(c0 + parts.take(i)) + utf8_len_str(parts[i]) <= utf8_len_col(c0 + parts),
{
    assert(parts =~= parts.take(i + 1) + parts.skip(i + 1));
    assert(c0 + parts =~= (c0 + parts.take(i + 1)) + parts.skip(i + 1));
    lemma_utf8_len_col_concat(c0 + parts.take(i + 1), parts.skip(i + 1));
    assert(parts.take(i + 1) =~= parts.take(i).push(parts[i]));
    assert(c0 + parts.take(i + 1) =~= (c0 + parts.take(i)).push(parts[i]));
    lemma_utf8_len_col_push(c0 + parts.take(i), parts[i]);
}

} // verus!

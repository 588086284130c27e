//! The streaming batch pipeline: accumulate pulled rows, flush on demand.
//!
//! `lines2batch` is one call of the per-call protocol: surface a pull
//! error as this call's result (discarding what this call pulled, keeping
//! what earlier calls left pending), append every pulled row otherwise,
//! signal end of sequence when nothing at all is pending, and else finish
//! all nine columns and assemble one batch.  `Lines2BatchIter` holds the
//! state that persists across calls.  Reading lines and resolving paths is
//! outside work; each call hands in what was pulled, already resolved.

use vstd::prelude::*;
use crate::builder::Builder;
use crate::columns::{
    arrow_err_to_io, assemble_batch, assemble_ok, batch_bool_col, batch_str_col, batch_ts_col,
    batch_schema, batch_u32_col, batch_u64_col, is_stream_schema, Batch,
};
use crate::meta::{rows_v, Row};
use crate::model::{
    lemma_add_empty, lemma_add_take_step, lemma_add_wf, lemma_cat_add, lemma_utf8_prefix_bound,
    lemma_utf8_sub_bound, utf8_len_col, ColsV, RowV,
};
use arrow::datatypes::SchemaRef;

verus! {

/// The nine columns of an assembled batch, in schema order.
pub open spec fn batch_cols(b: Batch) -> ColsV {
    ColsV {
        paths: batch_str_col(b, 0),
        types: batch_str_col(b, 1),
        read_onlys: batch_bool_col(b, 2),
        modes: batch_u32_col(b, 3),
        nlinks: batch_u64_col(b, 4),
        lens: batch_u64_col(b, 5),
        uids: batch_u32_col(b, 6),
        gids: batch_u32_col(b, 7),
        mtimes: batch_ts_col(b, 8),
    }
}

/// One call of the per-call protocol.  `rows` is what this call pulled and
/// resolved, in input order; `line_err` is the error that cut the pull
/// short, if any.  A pull error is surfaced as this call's result: the
/// rows pulled by this call are discarded, while rows already pending from
/// prior calls stay in the builder untouched.  Otherwise every pulled row
/// is appended; an empty builder then signals end of sequence, and any
/// pending rows are finished into one batch, leaving the builder empty.
pub fn lines2batch(
    rows: Vec<Row>,
    line_err: Option<std::io::Error>,
    schema: &SchemaRef,
    bldr: &mut Builder,
) -> (r: Result<Option<Batch>, std::io::Error>)
    requires
        old(bldr).wf(),
        is_stream_schema(*schema),
        line_err is None ==> utf8_len_col(old(bldr).cols().add(rows_v(rows@)).paths)
            <= 0x7fff_ffff,
        line_err is None ==> utf8_len_col(old(bldr).cols().add(rows_v(rows@)).types)
            <= 0x7fff_ffff,
    ensures
        final(bldr).wf(),
        (match r {
            Result::Err(e) => {
                &&& line_err == Some(e)
                &&& final(bldr).cols() == old(bldr).cols()
            },
            Result::Ok(ob) => {
                &&& line_err is None
                &&& match ob {
                    Option::None => {
                        &&& old(bldr).nrows() + rows@.len() == 0
                        &&& final(bldr).cols() == old(bldr).cols()
                    },
                    Option::Some(b) => {
                        &&& old(bldr).nrows() + rows@.len() > 0
                        &&& batch_cols(b) == old(bldr).cols().add(rows_v(rows@))
                        &&& batch_cols(b).wf()
                        &&& batch_cols(b).nrows() == old(bldr).nrows() + rows@.len()
                        &&& batch_schema(b) == *schema
                        &&& final(bldr).nrows() == 0
                    },
                }
            },
        }),
{
    match line_err {
        Option::Some(e) => {
            return Result::Err(e);
        },
        Option::None => {},
    }
    proof {
        lemma_add_wf(old(bldr).cols(), rows_v(rows@));
    }
    let ghost orig = rows@;
    let mut rows = rows;
    let total = rows.len();
    let mut i: usize = 0;
    while rows.len() > 0
        invariant
            old(bldr).wf(),
            orig.len() == total,
            i + rows@.len() == total,
            rows@ == orig.skip(i as int),
            bldr.wf(),
            bldr.cols() == old(bldr).cols().add(rows_v(orig).take(i as int)),
            utf8_len_col(old(bldr).cols().add(rows_v(orig)).paths) <= 0x7fff_ffff,
            utf8_len_col(old(bldr).cols().add(rows_v(orig)).types) <= 0x7fff_ffff,
        decreases rows@.len(),
    {
        let row = rows.remove(0);
        proof {
            assert(row == orig[i as int]);
            assert(rows@ =~= orig.skip(i as int + 1));
            assert(rows_v(orig)[i as int] == row.row_v());
            let paths_parts = rows_v(orig).map_values(|r: RowV| r.path);
            let types_parts = rows_v(orig).map_values(|r: RowV| r.ftype);
            assert(rows_v(orig).take(i as int).map_values(|r: RowV| r.path)
                =~= paths_parts.take(i as int));
            assert(rows_v(orig).take(i as int).map_values(|r: RowV| r.ftype)
                =~= types_parts.take(i as int));
            lemma_utf8_prefix_bound(old(bldr).cols().paths, paths_parts, i as int);
            lemma_utf8_prefix_bound(old(bldr).cols().types, types_parts, i as int);
        }
        let Row { path, meta } = row;
        let ft = meta.file_type();
        bldr.append_path(path);
        bldr.append_type(ft.name());
        bldr.append_read_only(meta.read_only());
        bldr.append_mode(meta.mode());
        bldr.append_nlink(meta.nlink());
        bldr.append_len(meta.len);
        bldr.append_uid(meta.uid());
        bldr.append_gid(meta.gid());
        bldr.append_mtime(meta.mtime);
        i = i + 1;
        proof {
            lemma_add_take_step(old(bldr).cols(), rows_v(orig), i as int - 1);
            lemma_add_wf(old(bldr).cols(), rows_v(orig).take(i as int));
            assert(bldr.cols() == old(bldr).cols().add(rows_v(orig).take(i as int)));
        }
    }
    proof {
        assert(rows_v(orig).take(i as int) =~= rows_v(orig));
        assert(bldr.cols() == old(bldr).cols().add(rows_v(orig)));
    }
    if bldr.is_empty() {
        proof {
            assert(rows_v(orig) =~= Seq::<RowV>::empty());
            lemma_add_empty(old(bldr).cols());
        }
        return Result::Ok(Option::None);
    }
    let ghost all = old(bldr).cols().add(rows_v(orig));
    let apath = bldr.finish_path();
    let atype = bldr.finish_type();
    let aread = bldr.finish_read_only();
    let amode = bldr.finish_mode();
    let anlink = bldr.finish_nlink();
    let alen = bldr.finish_len();
    let auid = bldr.finish_uid();
    let agid = bldr.finish_gid();
    let amtime = bldr.finish_mtime();
    proof {
        assert(assemble_ok(apath, atype, aread, amode, anlink, alen, auid, agid, amtime));
    }
    match assemble_batch(schema, apath, atype, aread, amode, anlink, alen, auid, agid, amtime) {
        Result::Ok(b) => {
            proof {
                assert(batch_cols(b) == all);
            }
            Result::Ok(Option::Some(b))
        },
        Result::Err(e) => Result::Err(arrow_err_to_io(e)),
    }
}

/// The state the streaming iterator keeps across calls: the shared schema,
/// the row threshold per batch, and the accumulators.
pub struct Lines2BatchIter {
    pub schema: SchemaRef,
    pub batch_size: usize,
    pub bldr: Builder,
}

impl Lines2BatchIter {
    pub open spec fn wf(self) -> bool {
        &&& self.bldr.wf()
        &&& is_stream_schema(self.schema)
    }

    /// One `next` call of the iterator, fed with what the outside line
    /// source and resolver produced for it: up to `batch_size` resolved
    /// rows, and the error that cut the pull short, if any.  Yields
    /// `None` at end of sequence, one batch of between 1 and `batch_size`
    /// rows carrying the stream's schema, or the error (this call's rows
    /// then discarded, pending rows kept).
    pub fn next_with(&mut self, rows: Vec<Row>, line_err: Option<std::io::Error>) -> (r: Option<
        Result<Batch, std::io::Error>,
    >)
        requires
            old(self).wf(),
            old(self).bldr.nrows() + rows@.len() <= old(self).batch_size,
            line_err is None ==> utf8_len_col(old(self).bldr.cols().add(rows_v(rows@)).paths)
                <= 0x7fff_ffff,
            line_err is None ==> utf8_len_col(old(self).bldr.cols().add(rows_v(rows@)).types)
                <= 0x7fff_ffff,
        ensures
            final(self).wf(),
            final(self).schema == old(self).schema,
            final(self).batch_size == old(self).batch_size,
            (match r {
                Option::None => {
                    &&& line_err is None
                    &&& old(self).bldr.nrows() + rows@.len() == 0
                    &&& final(self).bldr.cols() == old(self).bldr.cols()
                },
                Option::Some(Result::Err(e)) => {
                    &&& line_err == Some(e)
                    &&& final(self).bldr.cols() == old(self).bldr.cols()
                },
                Option::Some(Result::Ok(b)) => {
                    &&& line_err is None
                    &&& batch_cols(b) == old(self).bldr.cols().add(rows_v(rows@))
                    &&& batch_cols(b).wf()
                    &&& 1 <= batch_cols(b).nrows() <= old(self).batch_size
                    &&& batch_schema(b) == old(self).schema
                    &&& final(self).bldr.nrows() == 0
                },
            }),
    {
        let robat = lines2batch(rows, line_err, &self.schema, &mut self.bldr);
        match robat {
            Result::Err(e) => Option::Some(Result::Err(e)),
            Result::Ok(Option::None) => Option::None,
            Result::Ok(Option::Some(b)) => Option::Some(Result::Ok(b)),
        }
    }
}

/// The concatenation, in order, of the columns of a sequence of batches.
pub open spec fn cat_batches(bs: Seq<Batch>) -> ColsV
    decreases bs.len(),
{
    if bs.len() == 0 {
        ColsV::empty()
    } else {
        cat_batches(bs.drop_last()).cat(batch_cols(bs.last()))
    }
}

/// Runs the whole conversion over an input that is already resolved and in
/// memory, pulling `batch_size` rows per call as the driving loop would.
///
/// The contract carries the stream's laws: the concatenation of rows
/// across all yielded batches is, in order, exactly the input, with no row
/// duplicated, dropped or reordered; every batch holds between 1 and
/// `batch_size` rows and all but the last hold exactly `batch_size`, and
/// every batch carries the given schema; empty input yields no batch;
/// `batch_size` rows yield exactly one batch; one row more yields exactly
/// two.
pub fn batches_from_rows(rows: Vec<Row>, schema: SchemaRef, batch_size: usize) -> (r: Vec<Batch>)
    requires
        batch_size >= 1,
        is_stream_schema(schema),
        utf8_len_col(ColsV::empty().add(rows_v(rows@)).paths) <= 0x7fff_ffff,
        utf8_len_col(ColsV::empty().add(rows_v(rows@)).types) <= 0x7fff_ffff,
    ensures
        cat_batches(r@) == ColsV::empty().add(rows_v(rows@)),
        forall|k: int| 0 <= k < r@.len() ==> #[trigger] batch_schema(r@[k]) == schema,
        forall|k: int| 0 <= k < r@.len() ==> batch_cols(r@[k]).wf(),
        forall|k: int| 0 <= k < r@.len() ==> 1 <= #[trigger] batch_cols(r@[k]).nrows() <= batch_size,
        forall|k: int| 0 <= k < r@.len() - 1 ==> #[trigger] batch_cols(r@[k]).nrows() == batch_size,
        rows@.len() <= r@.len() * batch_size,
        r@.len() * batch_size < rows@.len() + batch_size,
        rows@.len() == 0 ==> r@.len() == 0,
        rows@.len() == batch_size ==> r@.len() == 1,
        rows@.len() == batch_size + 1 ==> r@.len() == 2,
{
    let mut it = match lines2batch_iter(schema, batch_size) {
        Result::Ok(it) => it,
        Result::Err(_) => vstd::pervasive::unreached(),
    };
    let ghost orig = rows@;
    let mut rest = rows;
    let mut out: Vec<Batch> = Vec::new();
    let ghost mut done: int = 0;
    while rest.len() > 0
        invariant
            batch_size >= 1,
            it.wf(),
            it.schema == schema,
            it.batch_size == batch_size,
            it.bldr.cols() == ColsV::empty(),
            0 <= done <= orig.len(),
            rest@ == orig.skip(done),
            cat_batches(out@) == ColsV::empty().add(rows_v(orig).take(done)),
            forall|k: int| 0 <= k < out@.len() ==> #[trigger] batch_schema(out@[k]) == schema,
            forall|k: int| 0 <= k < out@.len() ==> batch_cols(out@[k]).wf(),
            forall|k: int| 0 <= k < out@.len() ==> 1 <= #[trigger] batch_cols(out@[k]).nrows() <= batch_size,
            forall|k: int| 0 <= k < out@.len() - 1 ==> #[trigger] batch_cols(out@[k]).nrows() == batch_size,
            rest@.len() > 0 ==> (forall|k: int|
                0 <= k < out@.len() ==> #[trigger] batch_cols(out@[k]).nrows() == batch_size),
            rest@.len() > 0 ==> done == out@.len() * batch_size,
            done <= out@.len() * batch_size,
            out@.len() * batch_size < done + batch_size,
            utf8_len_col(ColsV::empty().add(rows_v(orig)).paths) <= 0x7fff_ffff,
            utf8_len_col(ColsV::empty().add(rows_v(orig)).types) <= 0x7fff_ffff,
        decreases rest@.len(),
    {
        let take_n = if rest.len() > batch_size {
            batch_size
        } else {
            rest.len()
        };
        let ghost s = take_n as int;
        let tail = rest.split_off(take_n);
        let group = rest;
        rest = tail;
        proof {
            assert(group@ =~= orig.skip(done).take(s));
            assert(rest@ =~= orig.skip(done + s));
            assert(rows_v(group@) =~= rows_v(orig).subrange(done, done + s));
            let all_paths = rows_v(orig).map_values(|r: RowV| r.path);
            let all_types = rows_v(orig).map_values(|r: RowV| r.ftype);
            assert(ColsV::empty().add(rows_v(orig)).paths =~= all_paths);
            assert(ColsV::empty().add(rows_v(orig)).types =~= all_types);
            assert(it.bldr.cols().add(rows_v(group@)).paths =~= all_paths.subrange(
                done,
                done + s,
            ));
            assert(it.bldr.cols().add(rows_v(group@)).types =~= all_types.subrange(
                done,
                done + s,
            ));
            lemma_utf8_sub_bound(all_paths, done, done + s);
            lemma_utf8_sub_bound(all_types, done, done + s);
        }
        let rob = it.next_with(group, Option::None);
        let b = match rob {
            Option::Some(Result::Ok(b)) => b,
            _ => vstd::pervasive::unreached(),
        };
        let ghost out_before = out@;
        let ghost prev_done = done;
        out.push(b);
        proof {
            done = done + s;
            let l = out_before.len() as int;
            assert(out@.drop_last() =~= out_before);
            assert(out@.last() == b);
            assert(batch_cols(b) == ColsV::empty().add(rows_v(group@)));
            assert(cat_batches(out@) == cat_batches(out_before).cat(batch_cols(b)));
            lemma_cat_add(rows_v(orig).take(prev_done), rows_v(group@));
            assert(rows_v(orig).take(prev_done) + rows_v(group@) =~= rows_v(orig).take(done));
            assert(cat_batches(out@) == ColsV::empty().add(rows_v(orig).take(done)));
            lemma_add_wf(ColsV::empty(), rows_v(group@));
            assert(batch_cols(b).nrows() == s);
            assert(it.bldr.cols() =~~= ColsV::empty());
            assert((l + 1) * (batch_size as int) == l * (batch_size as int) + batch_size)
                by (nonlinear_arith);
            assert(out@.len() == l + 1);
        }
    }
    proof {
        assert(rows_v(orig).take(done) =~= rows_v(orig));
        let n = orig.len() as int;
        let bs = batch_size as int;
        let l = out@.len() as int;
        if n == 0 {
            assert(l == 0) by (nonlinear_arith)
                requires
                    l * bs < 0 + bs,
                    bs >= 1,
                    l >= 0,
            ;
        }
        if n == bs {
            assert(l == 1) by (nonlinear_arith)
                requires
                    bs <= l * bs,
                    l * bs < bs + bs,
                    bs >= 1,
                    l >= 0,
            ;
        }
        if n == bs + 1 {
            assert(l == 2) by (nonlinear_arith)
                requires
                    bs + 1 <= l * bs,
                    l * bs < bs + 1 + bs,
                    bs >= 1,
                    l >= 0,
            ;
        }
    }
    out
}

/// Builds the iterator state for a stream with the given schema and row
/// threshold.  The accumulators start empty.
pub fn lines2batch_iter(schema: SchemaRef, batch_size: usize) -> (r: Result<
    Lines2BatchIter,
    std::io::Error,
>)
    requires
        is_stream_schema(schema),
    ensures
        r matches Ok(it) && it.schema == schema && it.batch_size == batch_size && it.wf()
            && it.bldr.cols() == ColsV::empty(),
{
    Result::Ok(Lines2BatchIter { schema, batch_size, bldr: Builder::new() })
}

} // verus!

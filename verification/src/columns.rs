//! Trusted surface over the arrow column builders, arrays and batches.
//!
//! The accumulators and the assembled batch live in the arrow crate.  Verus
//! refuses declarations of arrow's generic builder and array types (their
//! bounds are outside traits), so each is held in an opaque struct of this
//! crate.  Each such holder is given a name for what it holds (`sb_rows`,
//! `batch_str_col`, ...), and every arrow call the library makes goes
//! through a wrapper whose contract states, over those names, what the
//! arrow source shows.  Everything else in the crate is proved from these
//! contracts.

use vstd::prelude::*;
use crate::model::{utf8_len_col, utf8_len_str};
use arrow::array::{
    ArrayBuilder, BooleanArray, BooleanBuilder, StringArray, StringBuilder, UInt32Array,
    UInt32Builder, UInt64Array, UInt64Builder, TimestampSecondArray, TimestampSecondBuilder,
};
use arrow::datatypes::{DataType, Field, Schema, SchemaRef, TimeUnit};
use arrow::error::ArrowError;
use arrow::record_batch::RecordBatch;
use std::sync::Arc;

verus! {

#[verifier::external_type_specification]
#[verifier::external_body]
pub struct ExSchema(Schema);

#[verifier::external_type_specification]
#[verifier::external_body]
pub struct ExArrowError(ArrowError);

#[verifier::external_type_specification]
#[verifier::external_body]
pub struct ExIoError(std::io::Error);

/// Accumulator for a text column: arrow's 32-bit-offset string builder.
#[verifier::external_body]
pub struct TextColBuilder {
    inner: StringBuilder,
}

/// Accumulator for a boolean column.
#[verifier::external_body]
pub struct BoolColBuilder {
    inner: BooleanBuilder,
}

/// Accumulator for a nullable unsigned 32-bit column.
#[verifier::external_body]
pub struct U32ColBuilder {
    inner: UInt32Builder,
}

/// Accumulator for a nullable unsigned 64-bit column.
#[verifier::external_body]
pub struct U64ColBuilder {
    inner: UInt64Builder,
}

/// Accumulator for a nullable seconds-since-epoch timestamp column.
#[verifier::external_body]
pub struct TsColBuilder {
    inner: TimestampSecondBuilder,
}

/// A finished immutable text column.
#[verifier::external_body]
pub struct TextCol {
    pub arr: StringArray,
}

/// A finished immutable boolean column.
#[verifier::external_body]
pub struct BoolCol {
    pub arr: BooleanArray,
}

/// A finished immutable unsigned 32-bit column.
#[verifier::external_body]
pub struct U32Col {
    pub arr: UInt32Array,
}

/// A finished immutable unsigned 64-bit column.
#[verifier::external_body]
pub struct U64Col {
    pub arr: UInt64Array,
}

/// A finished immutable seconds-since-epoch timestamp column.
#[verifier::external_body]
pub struct TsCol {
    pub arr: TimestampSecondArray,
}

/// An assembled nine-column batch.  The embedded record batch is what the
/// outside encoder consumes.
#[verifier::external_body]
pub struct Batch {
    pub rb: RecordBatch,
}

/// The string slots a text builder has accumulated, in append order (a
/// null slot holds the empty text).
pub uninterp spec fn sb_rows(b: TextColBuilder) -> Seq<Seq<char>>;

/// How many of a text builder's slots are null.
pub uninterp spec fn sb_nulls(b: TextColBuilder) -> nat;

/// The boolean slots a boolean builder has accumulated (a null slot holds
/// `false`).
pub uninterp spec fn bb_rows(b: BoolColBuilder) -> Seq<bool>;

/// How many of a boolean builder's slots are null.
pub uninterp spec fn bb_nulls(b: BoolColBuilder) -> nat;

/// The slots an unsigned-32 builder has accumulated: `None` for null.
pub uninterp spec fn u32b_rows(b: U32ColBuilder) -> Seq<Option<u32>>;

/// The slots an unsigned-64 builder has accumulated: `None` for null.
pub uninterp spec fn u64b_rows(b: U64ColBuilder) -> Seq<Option<u64>>;

/// The slots a timestamp builder has accumulated: `None` for null.
pub uninterp spec fn tsb_rows(b: TsColBuilder) -> Seq<Option<i64>>;

/// The timestamp builder carries the plain seconds type, with no time zone.
pub uninterp spec fn tsb_plain(b: TsColBuilder) -> bool;

/// The string slots of a finished text column.
pub uninterp spec fn str_arr_rows(a: TextCol) -> Seq<Seq<char>>;

/// How many slots of a finished text column are null.
pub uninterp spec fn str_arr_nulls(a: TextCol) -> nat;

/// The boolean slots of a finished boolean column.
pub uninterp spec fn bool_arr_rows(a: BoolCol) -> Seq<bool>;

/// How many slots of a finished boolean column are null.
pub uninterp spec fn bool_arr_nulls(a: BoolCol) -> nat;

/// The slots of a finished unsigned-32 column: `None` for null.
pub uninterp spec fn u32_arr_rows(a: U32Col) -> Seq<Option<u32>>;

/// The slots of a finished unsigned-64 column: `None` for null.
pub uninterp spec fn u64_arr_rows(a: U64Col) -> Seq<Option<u64>>;

/// The slots of a finished timestamp column: `None` for null.
pub uninterp spec fn ts_arr_rows(a: TsCol) -> Seq<Option<i64>>;

/// The timestamp column carries the plain seconds type, with no time zone.
pub uninterp spec fn ts_arr_plain(a: TsCol) -> bool;

/// The schema is the fixed nine-column stream schema that `schema` builds.
pub uninterp spec fn is_stream_schema(s: SchemaRef) -> bool;

/// The schema the embedded record batch carries.
pub uninterp spec fn batch_schema(b: Batch) -> SchemaRef;

/// The string slots of column `i` of a batch.
pub uninterp spec fn batch_str_col(b: Batch, i: int) -> Seq<Seq<char>>;

/// The boolean slots of column `i` of a batch.
pub uninterp spec fn batch_bool_col(b: Batch, i: int) -> Seq<bool>;

/// The unsigned-32 slots of column `i` of a batch: `None` for null.
pub uninterp spec fn batch_u32_col(b: Batch, i: int) -> Seq<Option<u32>>;

/// The unsigned-64 slots of column `i` of a batch: `None` for null.
pub uninterp spec fn batch_u64_col(b: Batch, i: int) -> Seq<Option<u64>>;

/// The seconds-timestamp slots of column `i` of a batch: `None` for null.
pub uninterp spec fn batch_ts_col(b: Batch, i: int) -> Seq<Option<i64>>;

/// Relies on arrow's GenericByteBuilder::new: a fresh builder holds no
/// slots.
#[verifier::external_body]
pub(crate) fn text_builder_new() -> (b: TextColBuilder)
    ensures
        sb_rows(b) == Seq::<Seq<char>>::empty(),
        sb_nulls(b) == 0,
{
    TextColBuilder { inner: StringBuilder::new() }
}

/// Relies on arrow's GenericByteBuilder::append_value: appends one non-null
/// string slot.  It panics only when the accumulated bytes would exceed the
/// 32-bit offset range, which the bound here rules out.
#[verifier::external_body]
pub(crate) fn text_builder_append(b: &mut TextColBuilder, v: &str)
    requires
        utf8_len_col(sb_rows(*old(b))) + utf8_len_str(v@) <= 0x7fff_ffff,
    ensures
        sb_rows(*final(b)) == sb_rows(*old(b)).push(v@),
        sb_nulls(*final(b)) == sb_nulls(*old(b)),
{
    b.inner.append_value(v);
}

/// Relies on arrow's GenericByteBuilder::finish: drains the accumulated
/// slots into an immutable string array and leaves the builder empty.
#[verifier::external_body]
pub(crate) fn text_builder_finish(b: &mut TextColBuilder) -> (a: TextCol)
    ensures
        str_arr_rows(a) == sb_rows(*old(b)),
        str_arr_nulls(a) == sb_nulls(*old(b)),
        sb_rows(*final(b)) == Seq::<Seq<char>>::empty(),
        sb_nulls(*final(b)) == 0,
{
    TextCol { arr: b.inner.finish() }
}

/// Relies on arrow's ArrayBuilder::len: how many slots have been appended.
#[verifier::external_body]
pub(crate) fn text_builder_len(b: &TextColBuilder) -> (n: usize)
    ensures
        n == sb_rows(*b).len(),
{
    ArrayBuilder::len(&b.inner)
}

/// Relies on arrow's BooleanBuilder::new: a fresh builder holds no slots.
#[verifier::external_body]
pub(crate) fn bool_builder_new() -> (b: BoolColBuilder)
    ensures
        bb_rows(b) == Seq::<bool>::empty(),
        bb_nulls(b) == 0,
{
    BoolColBuilder { inner: BooleanBuilder::new() }
}

/// Relies on arrow's BooleanBuilder::append_value: appends one non-null
/// slot.
#[verifier::external_body]
pub(crate) fn bool_builder_append(b: &mut BoolColBuilder, v: bool)
    ensures
        bb_rows(*final(b)) == bb_rows(*old(b)).push(v),
        bb_nulls(*final(b)) == bb_nulls(*old(b)),
{
    b.inner.append_value(v);
}

/// Relies on arrow's BooleanBuilder::finish: drains the accumulated slots
/// into an immutable boolean array and leaves the builder empty.
#[verifier::external_body]
pub(crate) fn bool_builder_finish(b: &mut BoolColBuilder) -> (a: BoolCol)
    ensures
        bool_arr_rows(a) == bb_rows(*old(b)),
        bool_arr_nulls(a) == bb_nulls(*old(b)),
        bb_rows(*final(b)) == Seq::<bool>::empty(),
        bb_nulls(*final(b)) == 0,
{
    BoolCol { arr: b.inner.finish() }
}

/// Relies on arrow's PrimitiveBuilder::new: a fresh builder holds no slots.
#[verifier::external_body]
pub(crate) fn u32_builder_new() -> (b: U32ColBuilder)
    ensures
        u32b_rows(b) == Seq::<Option<u32>>::empty(),
{
    U32ColBuilder { inner: UInt32Builder::new() }
}

/// Relies on arrow's PrimitiveBuilder::append_option: appends one slot,
/// null for `None`.
#[verifier::external_body]
pub(crate) fn u32_builder_append(b: &mut U32ColBuilder, v: Option<u32>)
    ensures
        u32b_rows(*final(b)) == u32b_rows(*old(b)).push(v),
{
    b.inner.append_option(v);
}

/// Relies on arrow's PrimitiveBuilder::finish: drains the accumulated slots
/// into an immutable array and leaves the builder empty.
#[verifier::external_body]
pub(crate) fn u32_builder_finish(b: &mut U32ColBuilder) -> (a: U32Col)
    ensures
        u32_arr_rows(a) == u32b_rows(*old(b)),
        u32b_rows(*final(b)) == Seq::<Option<u32>>::empty(),
{
    U32Col { arr: b.inner.finish() }
}

/// Relies on arrow's PrimitiveBuilder::new: a fresh builder holds no slots.
#[verifier::external_body]
pub(crate) fn u64_builder_new() -> (b: U64ColBuilder)
    ensures
        u64b_rows(b) == Seq::<Option<u64>>::empty(),
{
    U64ColBuilder { inner: UInt64Builder::new() }
}

/// Relies on arrow's PrimitiveBuilder::append_option: appends one slot,
/// null for `None`.
#[verifier::external_body]
pub(crate) fn u64_builder_append(b: &mut U64ColBuilder, v: Option<u64>)
    ensures
        u64b_rows(*final(b)) == u64b_rows(*old(b)).push(v),
{
    b.inner.append_option(v);
}

/// Relies on arrow's PrimitiveBuilder::finish: drains the accumulated slots
/// into an immutable array and leaves the builder empty.
#[verifier::external_body]
pub(crate) fn u64_builder_finish(b: &mut U64ColBuilder) -> (a: U64Col)
    ensures
        u64_arr_rows(a) == u64b_rows(*old(b)),
        u64b_rows(*final(b)) == Seq::<Option<u64>>::empty(),
{
    U64Col { arr: b.inner.finish() }
}

/// Relies on arrow's PrimitiveBuilder::new: a fresh builder holds no slots
/// and carries the plain seconds type.
#[verifier::external_body]
pub(crate) fn ts_builder_new() -> (b: TsColBuilder)
    ensures
        tsb_rows(b) == Seq::<Option<i64>>::empty(),
        tsb_plain(b),
{
    TsColBuilder { inner: TimestampSecondBuilder::new() }
}

/// Relies on arrow's PrimitiveBuilder::append_option: appends one slot,
/// null for `None`; the builder's type is untouched.
#[verifier::external_body]
pub(crate) fn ts_builder_append(b: &mut TsColBuilder, v: Option<i64>)
    ensures
        tsb_rows(*final(b)) == tsb_rows(*old(b)).push(v),
        tsb_plain(*final(b)) == tsb_plain(*old(b)),
{
    b.inner.append_option(v);
}

/// Relies on arrow's PrimitiveBuilder::finish: drains the accumulated slots
/// into an immutable array of the builder's type and leaves the builder
/// empty with its type kept.
#[verifier::external_body]
pub(crate) fn ts_builder_finish(b: &mut TsColBuilder) -> (a: TsCol)
    ensures
        ts_arr_rows(a) == tsb_rows(*old(b)),
        ts_arr_plain(a) == tsb_plain(*old(b)),
        tsb_rows(*final(b)) == Seq::<Option<i64>>::empty(),
        tsb_plain(*final(b)) == tsb_plain(*old(b)),
{
    TsCol { arr: b.inner.finish() }
}

/// Relies on arrow's Schema and Field constructors and the Arc conversion:
/// the fixed nine-column stream schema, in this order and with these types
/// and nullabilities.
#[verifier::external_body]
pub fn schema() -> (r: SchemaRef)
    ensures
        is_stream_schema(r),
{
    Schema::new(vec![
        Field::new("path", DataType::Utf8, false),
        Field::new("type", DataType::Utf8, false),
        Field::new("read_only", DataType::Boolean, false),
        Field::new("mode", DataType::UInt32, true),
        Field::new("nlink", DataType::UInt64, true),
        Field::new("len", DataType::UInt64, false),
        Field::new("uid", DataType::UInt32, true),
        Field::new("gid", DataType::UInt32, true),
        Field::new("mtime", DataType::Timestamp(TimeUnit::Second, None), true),
    ])
    .into()
}

/// The condition under which assembly succeeds: all nine columns share one
/// row count and the non-nullable columns (path, type, read_only, len) hold
/// no null.
pub open spec fn assemble_ok(
    paths: TextCol,
    types: TextCol,
    read_onlys: BoolCol,
    modes: U32Col,
    nlinks: U64Col,
    lens: U64Col,
    uids: U32Col,
    gids: U32Col,
    mtimes: TsCol,
) -> bool {
    let n = str_arr_rows(paths).len();
    &&& str_arr_nulls(paths) == 0
    &&& str_arr_nulls(types) == 0
    &&& bool_arr_nulls(read_onlys) == 0
    &&& forall|i: int| 0 <= i < u64_arr_rows(lens).len() ==> u64_arr_rows(lens)[i] is Some
    &&& str_arr_rows(types).len() == n
    &&& bool_arr_rows(read_onlys).len() == n
    &&& u32_arr_rows(modes).len() == n
    &&& u64_arr_rows(nlinks).len() == n
    &&& u64_arr_rows(lens).len() == n
    &&& u32_arr_rows(uids).len() == n
    &&& u32_arr_rows(gids).len() == n
    &&& ts_arr_rows(mtimes).len() == n
}

/// Relies on arrow's RecordBatch::try_new, applied to the nine-column
/// stream schema: it returns a batch exactly when `assemble_ok` holds of
/// the given columns; the batch then carries the given schema and its
/// columns are exactly those arrays, in schema order.
#[verifier::external_body]
pub(crate) fn assemble_batch(
    schema: &SchemaRef,
    paths: TextCol,
    types: TextCol,
    read_onlys: BoolCol,
    modes: U32Col,
    nlinks: U64Col,
    lens: U64Col,
    uids: U32Col,
    gids: U32Col,
    mtimes: TsCol,
) -> (r: Result<Batch, ArrowError>)
    requires
        is_stream_schema(*schema),
        ts_arr_plain(mtimes),
    ensures
        r is Ok <==> assemble_ok(paths, types, read_onlys, modes, nlinks, lens, uids, gids, mtimes),
        r matches Ok(b) ==> batch_schema(b) == *schema,
        r matches Ok(b) ==> batch_str_col(b, 0) == str_arr_rows(paths)
            && batch_str_col(b, 1) == str_arr_rows(types)
            && batch_bool_col(b, 2) == bool_arr_rows(read_onlys)
            && batch_u32_col(b, 3) == u32_arr_rows(modes)
            && batch_u64_col(b, 4) == u64_arr_rows(nlinks)
            && batch_u64_col(b, 5) == u64_arr_rows(lens)
            && batch_u32_col(b, 6) == u32_arr_rows(uids)
            && batch_u32_col(b, 7) == u32_arr_rows(gids)
            && batch_ts_col(b, 8) == ts_arr_rows(mtimes),
{
    RecordBatch::try_new(
        Arc::clone(schema),
        vec![
            Arc::new(paths.arr), Arc::new(types.arr), Arc::new(read_onlys.arr),
            Arc::new(modes.arr), Arc::new(nlinks.arr), Arc::new(lens.arr),
            Arc::new(uids.arr), Arc::new(gids.arr), Arc::new(mtimes.arr),
        ],
    ).map(|rb| Batch { rb })
}

/// Relies on std's io::Error::other: the assembly error, surfaced to the
/// caller as an I/O error.
#[verifier::external_body]
pub(crate) fn arrow_err_to_io(e: ArrowError) -> std::io::Error {
    std::io::Error::other(e)
}

} // verus!

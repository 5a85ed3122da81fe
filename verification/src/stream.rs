//! Record batches, and the streams that they are written to, as `arrow` holds
//! them.

use arrow::datatypes::Schema;
use arrow::error::ArrowError;
use arrow::ipc::writer::StreamWriter;
use arrow::record_batch::RecordBatch;
use std::sync::Arc;
use vstd::prelude::*;

verus! {

#[verifier::external_type_specification]
#[verifier::external_body]
pub struct ExArrowError(ArrowError);

#[verifier::external_type_specification]
#[verifier::external_body]
pub struct ExSchema(Schema);

#[verifier::external_type_specification]
#[verifier::external_body]
#[verifier::reject_recursive_types(W)]
pub struct ExStreamWriter<W>(StreamWriter<W>);

/// A record batch of `arrow`, carried as it is.
#[verifier::external_body]
#[derive(Debug)]
pub struct ArrowBatch(pub RecordBatch);

/// How far a stream has been written: the schema, the batches behind it, and
/// whether the end is marked.
pub struct StreamState {
    pub schema: Schema,
    pub batches: Seq<ArrowBatch>,
    pub finished: bool,
}

/// What `RecordBatch::schema` gives.
pub uninterp spec fn batch_schema(batch: ArrowBatch) -> Schema;

/// What `StreamWriter` holds: how far its stream has been written.
pub uninterp spec fn stream_state(writer: StreamWriter<Vec<u8>>) -> StreamState;

/// What `StreamWriter::get_ref` gives: the bytes of a stream that has been
/// written so far.
pub uninterp spec fn stream_bytes(state: StreamState) -> Seq<u8>;

/// What `StreamWriter::try_new` fails with, where it fails.
pub uninterp spec fn stream_open_error(schema: Schema) -> Option<ArrowError>;

/// What `StreamWriter::write` fails with, where it fails.
pub uninterp spec fn stream_write_error(state: StreamState, batch: ArrowBatch) -> Option<
    ArrowError,
>;

/// What `StreamWriter::finish` fails with, where it fails.
pub uninterp spec fn stream_finish_error(state: StreamState) -> Option<ArrowError>;

/// The stream of a schema before any batch.
pub open spec fn opened_stream(schema: Schema) -> StreamState {
    StreamState { schema, batches: Seq::empty(), finished: false }
}

/// `RecordBatch::schema`: the schema of the batch.
#[verifier::external_body]
fn record_batch_schema(batch: &ArrowBatch) -> (schema: Arc<Schema>)
    ensures
        *schema == batch_schema(*batch),
{
    batch.0.schema()
}

/// `StreamWriter::try_new` onto an empty vector: a stream of that schema, without
/// batches. Whether it fails, and how, is a function of the schema.
#[verifier::external_body]
fn stream_try_new(schema: &Schema) -> (opened: Result<StreamWriter<Vec<u8>>, ArrowError>)
    ensures
        match opened {
            Ok(writer) => stream_open_error(*schema) is None && stream_state(writer)
                == opened_stream(*schema),
            Err(error) => stream_open_error(*schema) == Some(error),
        },
{
    StreamWriter::try_new(Vec::new(), schema)
}

/// `StreamWriter::write` of a first batch: the batch comes behind the schema.
/// Whether it fails, and how, is a function of the stream and the batch; nothing
/// is said of the stream after a failure.
#[verifier::external_body]
fn stream_write(writer: &mut StreamWriter<Vec<u8>>, batch: &ArrowBatch) -> (written: Result<
    (),
    ArrowError,
>)
    requires
        stream_state(*old(writer)).batches.len() == 0,
        !stream_state(*old(writer)).finished,
    ensures
        match written {
            Ok(_) => stream_write_error(stream_state(*old(writer)), *batch) is None && stream_state(
                *final(writer),
            ) == (StreamState {
                batches: stream_state(*old(writer)).batches.push(*batch),
                ..stream_state(*old(writer))
            }),
            Err(error) => stream_write_error(stream_state(*old(writer)), *batch) == Some(error),
        },
{
    writer.write(&batch.0)
}

/// `StreamWriter::finish` of a stream that is not finished: the end is marked.
/// Whether it fails, and how, is a function of the stream; nothing is said of
/// the stream after a failure.
#[verifier::external_body]
fn stream_finish(writer: &mut StreamWriter<Vec<u8>>) -> (marked: Result<(), ArrowError>)
    requires
        !stream_state(*old(writer)).finished,
    ensures
        match marked {
            Ok(_) => stream_finish_error(stream_state(*old(writer))) is None && stream_state(
                *final(writer),
            ) == (StreamState { finished: true, ..stream_state(*old(writer)) }),
            Err(error) => stream_finish_error(stream_state(*old(writer))) == Some(error),
        },
{
    writer.finish()
}

/// `StreamWriter::get_ref`: the bytes written so far. Where there is at most one
/// batch they are a function of how far the stream has been written. Nothing is
/// said of what a reader makes of them, for not every batch is read back as it
/// was: a time zone that is the empty text is read back as none, and a column
/// whose type names its inner fields otherwise than the schema does, which a
/// batch may have, is read back under the names of the schema.
#[verifier::external_body]
fn stream_get_ref(writer: &StreamWriter<Vec<u8>>) -> (bytes: &Vec<u8>)
    ensures
        stream_state(*writer).batches.len() <= 1 ==> bytes@ == stream_bytes(stream_state(*writer)),
{
    writer.get_ref()
}

/// Whether `written` is the stream of one batch: its schema, the batch and the
/// end. The first of the three that fails gives the error.
pub open spec fn is_stream_of(batch: ArrowBatch, written: Result<Vec<u8>, ArrowError>) -> bool {
    let opened = opened_stream(batch_schema(batch));
    let filled = StreamState { batches: seq![batch], ..opened };
    match stream_open_error(opened.schema) {
        Some(error) => written == Err::<Vec<u8>, ArrowError>(error),
        None => match stream_write_error(opened, batch) {
            Some(error) => written == Err::<Vec<u8>, ArrowError>(error),
            None => match stream_finish_error(filled) {
                Some(error) => written == Err::<Vec<u8>, ArrowError>(error),
                None => written matches Ok(bytes) && bytes@ == stream_bytes(
                    (StreamState { finished: true, ..filled }),
                ),
            },
        },
    }
}

/// Writes the stream of one batch.
pub fn arrow_stream_bytes(batch: &ArrowBatch) -> (written: Result<Vec<u8>, ArrowError>)
    ensures
        is_stream_of(*batch, written),
{
    let schema = record_batch_schema(batch);
    let mut writer = match stream_try_new(&schema) {
        Ok(writer) => writer,
        Err(error) => return Err(error),
    };
    match stream_write(&mut writer, batch) {
        Ok(_) => {},
        Err(error) => return Err(error),
    }
    assert(stream_state(writer).batches == seq![*batch]);
    match stream_finish(&mut writer) {
        Ok(_) => {},
        Err(error) => return Err(error),
    }
    let bytes = stream_get_ref(&writer).clone();
    assert(bytes@ == stream_bytes(stream_state(writer)));
    Ok(bytes)
}

} // verus!

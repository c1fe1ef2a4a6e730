//! The output callback: turns one `send_output` call of the operator into
//! an `Output` event, asking the transport for a loaned region where the
//! payload is large.

use vstd::prelude::*;
use crate::columnar::{array_bytes, copy_array_into, lays_out, required_data_size, ColumnarArray};
use crate::event::{OperatorEvent, TypeInfo};
use crate::sample::{choose_route, fits_private, LoanReply, Route, Sample, ZERO_COPY_THRESHOLD};
use crate::types::Metadata;

verus! {

/// The `data` argument of a call, as far as it could be read.
#[derive(Debug, PartialEq, Eq)]
pub enum OutputData {
    /// Raw bytes.
    Bytes(Vec<u8>),
    /// A columnar array.
    Columnar(ColumnarArray),
    /// A value of a type that cannot be sent.
    Unsupported,
}

/// The `metadata` argument of a call, as far as it could be read.
#[derive(Debug, Clone, PartialEq, Eq)]
pub enum MetadataArg {
    /// No metadata was given.
    Absent,
    /// A mapping that was converted to owned parameters.
    Given(Metadata),
    /// A value that is no metadata mapping.
    Malformed,
}

/// Why a call of the output callback failed.
#[derive(Debug, Clone, Copy, PartialEq, Eq, Structural)]
pub enum OutputError {
    /// The `data` argument is neither bytes nor an array.
    InvalidData,
    /// The transport could not loan a region of the requested size.
    AllocationFailed,
    /// The reply to the allocation request never came.
    ReplyDropped,
    /// The `metadata` argument could not be parsed.
    InvalidMetadata,
    /// The events channel is closed.
    ChannelClosed,
}

/// An output that waits for its loaned region.
#[derive(Debug, PartialEq, Eq)]
pub struct PendingOutput {
    pub output_id: String,
    pub data: OutputData,
    pub metadata: MetadataArg,
}

/// What the caller has to put on the events channel for a call.
#[derive(Debug, PartialEq, Eq)]
pub enum OutputStep {
    /// The finished output.
    Publish(OperatorEvent),
    /// A request for a loaned region; the output is finished by `resume`
    /// when the reply is there.
    Allocate { request: OperatorEvent, pending: PendingOutput },
}

/// The bytes that the data puts into its sample.
pub open spec fn payload(data: OutputData) -> Seq<u8> {
    match data {
        OutputData::Bytes(bytes) => bytes@,
        OutputData::Columnar(array) => array_bytes(array),
        OutputData::Unsupported => Seq::empty(),
    }
}

/// The size of the sample that the data needs, or the error with which
/// the data is refused: data of an unsupported type is invalid, and a
/// payload that does not fit the machine cannot be allocated.
pub open spec fn required_size(data: OutputData) -> Result<usize, OutputError> {
    if data is Unsupported {
        Err(OutputError::InvalidData)
    } else if payload(data).len() > usize::MAX {
        Err(OutputError::AllocationFailed)
    } else {
        Ok(payload(data).len() as usize)
    }
}

/// True if `type_info` is the layout of `data` in its sample.
pub open spec fn describes(type_info: TypeInfo, data: OutputData) -> bool {
    match data {
        OutputData::Bytes(bytes) => type_info == (TypeInfo::ByteArray { len: bytes.len() }),
        OutputData::Columnar(array) => {
            &&& type_info is Columnar
            &&& lays_out(type_info->Columnar_0, array, 0)
        },
        OutputData::Unsupported => false,
    }
}

/// True if `event` is the output of `data` under `output_id`: its type
/// information describes the data, its sample holds the data's bytes and
/// lives where `loan` says, and its parameters are the given metadata or,
/// in its absence, the empty bundle.
pub open spec fn is_output_of(
    event: OperatorEvent,
    output_id: String,
    data: OutputData,
    metadata: MetadataArg,
    loan: Option<u64>,
) -> bool {
    match event {
        OperatorEvent::Output { output_id: id, type_info, parameters, data: sample } => {
            &&& id == output_id
            &&& describes(type_info, data)
            &&& sample is Some
            &&& sample->0@ == payload(data)
            &&& sample->0.loan() == loan
            &&& match metadata {
                MetadataArg::Absent => parameters.is_empty(),
                MetadataArg::Given(given) => parameters == given,
                MetadataArg::Malformed => false,
            }
        },
        _ => false,
    }
}

/// Metadata that the operator forwards reaches the output unchanged, and
/// the payload reaches it byte for byte.
pub proof fn law_output_carries_what_was_given(
    event: OperatorEvent,
    output_id: String,
    data: OutputData,
    given: Metadata,
    loan: Option<u64>,
)
    requires
        is_output_of(event, output_id, data, MetadataArg::Given(given), loan),
    ensures
        event is Output,
        event->parameters == given,
        event->data is Some,
        event->data->0@ == payload(data),
        data is Bytes ==> event->data->0@ == data->Bytes_0@,
{
}

/// The callable handed to the operator with every event.
#[derive(Debug, Clone, Copy, PartialEq, Eq, Structural)]
pub struct SendOutputCallback {
    /// Payload size above which the sample is loaned by the transport.
    pub threshold: usize,
}

/// The size of the sample that the data needs.
pub fn payload_size(data: &OutputData) -> (r: Result<usize, OutputError>)
    ensures
        r == required_size(*data),
{
    match data {
        OutputData::Bytes(bytes) => Ok(bytes.len()),
        OutputData::Columnar(array) => match required_data_size(array) {
            Some(size) => Ok(size),
            None => Err(OutputError::AllocationFailed),
        },
        OutputData::Unsupported => Err(OutputError::InvalidData),
    }
}

fn finish(output_id: String, data: OutputData, metadata: MetadataArg, sample: Sample) -> (r: Result<
    OperatorEvent,
    OutputError,
>)
    requires
        required_size(data) is Ok,
        sample@.len() == payload(data).len(),
    ensures
        metadata is Malformed ==> r == Err::<OperatorEvent, OutputError>(
            OutputError::InvalidMetadata,
        ),
        !(metadata is Malformed) ==> r is Ok && is_output_of(
            r->Ok_0,
            output_id,
            data,
            metadata,
            sample.loan(),
        ),
{
    let mut sample = sample;
    let type_info = match &data {
        OutputData::Bytes(bytes) => {
            sample.copy_from_slice(bytes.as_slice());
            TypeInfo::ByteArray { len: bytes.len() }
        },
        OutputData::Columnar(array) => {
            let mut bytes: Vec<u8> = Vec::new();
            let layout = copy_array_into(array, &mut bytes);
            assert(bytes@ =~= array_bytes(*array));
            sample.copy_from_slice(bytes.as_slice());
            TypeInfo::Columnar(layout)
        },
        OutputData::Unsupported => vstd::pervasive::unreached(),
    };
    let parameters = match metadata {
        MetadataArg::Absent => Metadata::empty(),
        MetadataArg::Given(given) => given,
        MetadataArg::Malformed => {
            return Err(OutputError::InvalidMetadata);
        },
    };
    Ok(OperatorEvent::Output { output_id, type_info, parameters, data: Some(sample) })
}

impl SendOutputCallback {
    /// A callback with the default threshold.
    pub fn new() -> (callback: SendOutputCallback)
        ensures
            callback.threshold == ZERO_COPY_THRESHOLD,
    {
        SendOutputCallback { threshold: ZERO_COPY_THRESHOLD }
    }

    /// Handles one call `(output_id, data, metadata)`.
    ///
    /// Data that is neither bytes nor an array is refused. A payload
    /// above the threshold always leads to an allocation request for
    /// exactly its size, a payload at or below it never does: it is
    /// written into a private aligned sample and published at once,
    /// unless it is larger than any private buffer can be or the metadata
    /// cannot be parsed.
    pub fn call(&self, output_id: String, data: OutputData, metadata: MetadataArg) -> (r: Result<
        OutputStep,
        OutputError,
    >)
        ensures
            match required_size(data) {
                Err(error) => r == Err::<OutputStep, OutputError>(error),
                Ok(size) => if size > self.threshold {
                    r == Ok::<OutputStep, OutputError>(
                        OutputStep::Allocate {
                            request: OperatorEvent::AllocateOutputSample { len: size },
                            pending: PendingOutput { output_id, data, metadata },
                        },
                    )
                } else if !fits_private(size) {
                    r == Err::<OutputStep, OutputError>(OutputError::AllocationFailed)
                } else if metadata is Malformed {
                    r == Err::<OutputStep, OutputError>(OutputError::InvalidMetadata)
                } else {
                    &&& r is Ok
                    &&& r->Ok_0 is Publish
                    &&& is_output_of(r->Ok_0->Publish_0, output_id, data, metadata, None)
                },
            },
    {
        let len = match payload_size(&data) {
            Ok(len) => len,
            Err(error) => {
                return Err(error);
            },
        };
        match choose_route(len, self.threshold) {
            Route::Loan => Ok(
                OutputStep::Allocate {
                    request: OperatorEvent::AllocateOutputSample { len },
                    pending: PendingOutput { output_id, data, metadata },
                },
            ),
            Route::Private => {
                if !Sample::can_be_private(len) {
                    return Err(OutputError::AllocationFailed);
                }
                let sample = Sample::private(len);
                match finish(output_id, data, metadata, sample) {
                    Ok(event) => Ok(OutputStep::Publish(event)),
                    Err(error) => Err(error),
                }
            },
        }
    }

    /// Finishes an output once the transport has answered its allocation
    /// request. A refusal, a dropped reply channel or a region of another
    /// size than the payload fails the call; after that, metadata that
    /// cannot be parsed does. Otherwise the payload is written into the
    /// loaned region and leaves in it.
    pub fn resume(pending: PendingOutput, reply: LoanReply) -> (r: Result<OperatorEvent, OutputError>)
        ensures
            match reply {
                LoanReply::Refused => r == Err::<OperatorEvent, OutputError>(
                    OutputError::AllocationFailed,
                ),
                LoanReply::Dropped => r == Err::<OperatorEvent, OutputError>(
                    OutputError::ReplyDropped,
                ),
                LoanReply::Granted { handle, region } => match required_size(pending.data) {
                    Err(error) => r == Err::<OperatorEvent, OutputError>(error),
                    Ok(size) => if region@.len() != size {
                        r == Err::<OperatorEvent, OutputError>(OutputError::AllocationFailed)
                    } else if pending.metadata is Malformed {
                        r == Err::<OperatorEvent, OutputError>(OutputError::InvalidMetadata)
                    } else {
                        &&& r is Ok
                        &&& is_output_of(
                            r->Ok_0,
                            pending.output_id,
                            pending.data,
                            pending.metadata,
                            Some(handle),
                        )
                    },
                },
            },
    {
        match reply {
            LoanReply::Refused => Err(OutputError::AllocationFailed),
            LoanReply::Dropped => Err(OutputError::ReplyDropped),
            LoanReply::Granted { handle, region } => {
                let size = match payload_size(&pending.data) {
                    Ok(size) => size,
                    Err(error) => {
                        return Err(error);
                    },
                };
                if region.len() != size {
                    return Err(OutputError::AllocationFailed);
                }
                let sample = Sample::from_loan(handle, region);
                finish(pending.output_id, pending.data, pending.metadata, sample)
            },
        }
    }

    /// The result that the operator sees for a call whose event was
    /// handed to the events channel: an error exactly when the channel
    /// was closed.
    pub fn conclude(enqueued: bool) -> (r: Result<(), OutputError>)
        ensures
            r == if enqueued {
                Ok::<(), OutputError>(())
            } else {
                Err::<(), OutputError>(OutputError::ChannelClosed)
            },
    {
        if enqueued {
            Ok(())
        } else {
            Err(OutputError::ChannelClosed)
        }
    }
}

} // verus!

use operator_runtime::event::{OperatorEvent, TypeInfo};
use operator_runtime::output::{
    MetadataArg, OutputData, OutputError, OutputStep, PendingOutput, SendOutputCallback,
};
use operator_runtime::sample::{choose_route, LoanReply, Route, Sample, ZERO_COPY_THRESHOLD};
use operator_runtime::types::Metadata;

fn bytes(len: usize) -> Vec<u8> {
    (0..len).map(|i| (i % 251) as u8 + 1).collect()
}

#[test]
fn private_sample_is_zeroed_and_exact() {
    let sample = Sample::private(300);
    assert_eq!(sample.len(), 300);
    assert_eq!(sample.to_vec(), vec![0u8; 300]);
    assert_eq!(sample.loan_handle(), None);
    assert_eq!(sample.alignment(), Some(128));
    assert_eq!(Sample::from_loan(1, vec![]).alignment(), None);
    assert!(Sample::can_be_private(300));
    assert!(Sample::can_be_private(isize::MAX as usize - 128));
    assert!(!Sample::can_be_private(isize::MAX as usize - 127));
    let empty = Sample::private(0);
    assert_eq!(empty.len(), 0);
    assert_eq!(empty.to_vec(), Vec::<u8>::new());
}

#[test]
fn sample_copy_overwrites_every_byte() {
    let mut sample = Sample::private(4);
    sample.copy_from_slice(&[9, 8, 7, 6]);
    assert_eq!(sample.to_vec(), vec![9, 8, 7, 6]);
    let mut loaned = Sample::from_loan(17, vec![0; 3]);
    loaned.copy_from_slice(&[1, 2, 3]);
    assert_eq!(loaned.to_vec(), vec![1, 2, 3]);
    assert_eq!(loaned.loan_handle(), Some(17));
    assert_eq!(loaned.len(), 3);
}

#[test]
fn route_changes_exactly_above_the_threshold() {
    assert_eq!(ZERO_COPY_THRESHOLD, 4096);
    assert_eq!(choose_route(0, 4096), Route::Private);
    assert_eq!(choose_route(4096, 4096), Route::Private);
    assert_eq!(choose_route(4097, 4096), Route::Loan);
    assert_eq!(choose_route(usize::MAX, 0), Route::Loan);
    assert_eq!(choose_route(0, 0), Route::Private);
}

#[test]
fn small_payload_is_published_at_once() {
    let callback = SendOutputCallback::new();
    let payload = bytes(4096);
    let step = callback
        .call("out".to_string(), OutputData::Bytes(payload.clone()), MetadataArg::Absent)
        .unwrap();
    match step {
        OutputStep::Publish(OperatorEvent::Output { output_id, type_info, parameters, data }) => {
            assert_eq!(output_id, "out");
            assert_eq!(type_info, TypeInfo::ByteArray { len: 4096 });
            assert_eq!(parameters, Metadata::empty());
            let sample = data.unwrap();
            assert_eq!(sample.to_vec(), payload);
            assert_eq!(sample.loan_handle(), None);
        }
        other => panic!("unexpected step {:?}", other),
    }
}

#[test]
fn zero_length_payload_takes_the_private_path() {
    let callback = SendOutputCallback { threshold: 0 };
    let step = callback
        .call("out".to_string(), OutputData::Bytes(vec![]), MetadataArg::Absent)
        .unwrap();
    match step {
        OutputStep::Publish(OperatorEvent::Output { type_info, data, .. }) => {
            assert_eq!(type_info, TypeInfo::ByteArray { len: 0 });
            assert_eq!(data.unwrap().to_vec(), Vec::<u8>::new());
        }
        other => panic!("unexpected step {:?}", other),
    }
}

#[test]
fn large_payload_asks_for_one_sample_then_publishes() {
    let callback = SendOutputCallback { threshold: 1024 };
    let payload = bytes(2048);
    let given = Metadata {
        open_telemetry_context: "trace".to_string(),
        parameters: vec![("k".to_string(), "v".to_string())],
    };
    let step = callback
        .call(
            "out".to_string(),
            OutputData::Bytes(payload.clone()),
            MetadataArg::Given(given.clone()),
        )
        .unwrap();
    let pending = match step {
        OutputStep::Allocate { request, pending } => {
            assert_eq!(request, OperatorEvent::AllocateOutputSample { len: 2048 });
            pending
        }
        other => panic!("unexpected step {:?}", other),
    };
    assert_eq!(
        pending,
        PendingOutput {
            output_id: "out".to_string(),
            data: OutputData::Bytes(payload.clone()),
            metadata: MetadataArg::Given(given.clone()),
        }
    );
    let reply = LoanReply::Granted { handle: 5, region: vec![0; 2048] };
    match SendOutputCallback::resume(pending, reply).unwrap() {
        OperatorEvent::Output { output_id, type_info, parameters, data } => {
            assert_eq!(output_id, "out");
            assert_eq!(type_info, TypeInfo::ByteArray { len: 2048 });
            assert_eq!(parameters, given);
            let sample = data.unwrap();
            assert_eq!(sample.to_vec(), payload);
            assert_eq!(sample.loan_handle(), Some(5));
        }
        other => panic!("unexpected event {:?}", other),
    }
}

#[test]
fn payload_one_above_threshold_is_loaned() {
    let callback = SendOutputCallback::new();
    let step = callback
        .call("o".to_string(), OutputData::Bytes(bytes(4097)), MetadataArg::Absent)
        .unwrap();
    assert!(matches!(
        step,
        OutputStep::Allocate { request: OperatorEvent::AllocateOutputSample { len: 4097 }, .. }
    ));
}

#[test]
fn unsupported_data_is_refused_first() {
    let callback = SendOutputCallback::new();
    assert_eq!(
        callback.call("o".to_string(), OutputData::Unsupported, MetadataArg::Malformed),
        Err(OutputError::InvalidData)
    );
}

#[test]
fn malformed_metadata_fails_the_call() {
    let callback = SendOutputCallback::new();
    assert_eq!(
        callback.call("o".to_string(), OutputData::Bytes(vec![1]), MetadataArg::Malformed),
        Err(OutputError::InvalidMetadata)
    );
    let pending = PendingOutput {
        output_id: "o".to_string(),
        data: OutputData::Bytes(vec![1, 2]),
        metadata: MetadataArg::Malformed,
    };
    assert_eq!(
        SendOutputCallback::resume(pending, LoanReply::Granted { handle: 1, region: vec![0, 0] }),
        Err(OutputError::InvalidMetadata)
    );
}

#[test]
fn failed_allocation_fails_the_call() {
    let pending = || PendingOutput {
        output_id: "o".to_string(),
        data: OutputData::Bytes(vec![1, 2]),
        metadata: MetadataArg::Absent,
    };
    assert_eq!(
        SendOutputCallback::resume(pending(), LoanReply::Refused),
        Err(OutputError::AllocationFailed)
    );
    assert_eq!(
        SendOutputCallback::resume(pending(), LoanReply::Dropped),
        Err(OutputError::ReplyDropped)
    );
    assert_eq!(
        SendOutputCallback::resume(pending(), LoanReply::Granted { handle: 1, region: vec![0] }),
        Err(OutputError::AllocationFailed)
    );
}

#[test]
fn closed_channel_is_reported_to_the_operator() {
    assert_eq!(SendOutputCallback::conclude(true), Ok(()));
    assert_eq!(SendOutputCallback::conclude(false), Err(OutputError::ChannelClosed));
}

#[test]
fn unsupported_pending_data_is_refused_on_resume() {
    let pending = PendingOutput {
        output_id: "o".to_string(),
        data: OutputData::Unsupported,
        metadata: MetadataArg::Absent,
    };
    assert_eq!(
        SendOutputCallback::resume(pending, LoanReply::Granted { handle: 1, region: vec![] }),
        Err(OutputError::InvalidData)
    );
}

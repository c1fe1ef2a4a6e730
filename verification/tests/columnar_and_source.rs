use operator_runtime::columnar::{
    copy_array_into, required_data_size, ArrowTypeInfo, BufferOffset, ColumnarArray,
};
use operator_runtime::event::{OperatorEvent, TypeInfo};
use operator_runtime::output::{
    payload_size, MetadataArg, OutputData, OutputError, OutputStep, SendOutputCallback,
};
use operator_runtime::sample::LoanReply;
use operator_runtime::source::{
    download_target, locate_source, source_is_url, traceback, SourceLocation,
};
use operator_runtime::types::{IncomingEvent, Metadata};

fn leaf(len: usize, buffers: Vec<Vec<u8>>) -> ColumnarArray {
    ColumnarArray { len, buffers, children: vec![] }
}

fn array() -> ColumnarArray {
    ColumnarArray {
        len: 3,
        buffers: vec![vec![1, 2, 3], vec![], vec![4, 5]],
        children: vec![
            ColumnarArray {
                len: 2,
                buffers: vec![vec![6]],
                children: vec![leaf(1, vec![vec![7, 8]])],
            },
            leaf(0, vec![vec![9]]),
        ],
    }
}

fn place(offset: usize, len: usize) -> BufferOffset {
    BufferOffset { offset, len }
}

fn layout() -> ArrowTypeInfo {
    ArrowTypeInfo {
        len: 3,
        buffer_offsets: vec![place(0, 3), place(3, 0), place(3, 2)],
        child_data: vec![
            ArrowTypeInfo {
                len: 2,
                buffer_offsets: vec![place(5, 1)],
                child_data: vec![ArrowTypeInfo {
                    len: 1,
                    buffer_offsets: vec![place(6, 2)],
                    child_data: vec![],
                }],
            },
            ArrowTypeInfo { len: 0, buffer_offsets: vec![place(8, 1)], child_data: vec![] },
        ],
    }
}

#[test]
fn required_size_is_the_sum_of_buffer_lengths() {
    assert_eq!(required_data_size(&array()), Some(9));
    assert_eq!(required_data_size(&leaf(0, vec![])), Some(0));
    assert_eq!(required_data_size(&leaf(4, vec![vec![0; 3], vec![0; 4]])), Some(7));
    assert_eq!(payload_size(&OutputData::Columnar(array())), Ok(9));
    assert_eq!(payload_size(&OutputData::Bytes(vec![0; 9])), Ok(9));
    assert_eq!(payload_size(&OutputData::Unsupported), Err(OutputError::InvalidData));
}

#[test]
fn buffers_are_laid_end_to_end_depth_first() {
    let mut bytes = Vec::new();
    let info = copy_array_into(&array(), &mut bytes);
    assert_eq!(bytes, vec![1, 2, 3, 4, 5, 6, 7, 8, 9]);
    assert_eq!(info, layout());
    let own = array().buffers;
    for (buffer, place) in own.iter().zip(info.buffer_offsets.iter()) {
        assert_eq!(&bytes[place.offset..place.offset + place.len], buffer.as_slice());
    }
}

#[test]
fn serialization_appends_behind_what_is_there() {
    let mut bytes = vec![0u8, 0];
    let info = copy_array_into(&leaf(1, vec![vec![5], vec![6, 7]]), &mut bytes);
    assert_eq!(bytes, vec![0, 0, 5, 6, 7]);
    assert_eq!(info.buffer_offsets, vec![place(2, 1), place(3, 2)]);
    assert_eq!(info.len, 1);
}

#[test]
fn columnar_output_is_serialized_into_one_sample() {
    let callback = SendOutputCallback::new();
    let step = callback
        .call("table".to_string(), OutputData::Columnar(array()), MetadataArg::Absent)
        .unwrap();
    match step {
        OutputStep::Publish(OperatorEvent::Output { output_id, type_info, parameters, data }) => {
            assert_eq!(output_id, "table");
            assert_eq!(type_info, TypeInfo::Columnar(layout()));
            assert_eq!(parameters, Metadata::empty());
            assert_eq!(data.unwrap().to_vec(), vec![1, 2, 3, 4, 5, 6, 7, 8, 9]);
        }
        other => panic!("unexpected step {:?}", other),
    }
}

#[test]
fn large_columnar_output_goes_through_a_loan() {
    let callback = SendOutputCallback { threshold: 4 };
    let step = callback
        .call("table".to_string(), OutputData::Columnar(array()), MetadataArg::Absent)
        .unwrap();
    let pending = match step {
        OutputStep::Allocate { request, pending } => {
            assert_eq!(request, OperatorEvent::AllocateOutputSample { len: 9 });
            pending
        }
        other => panic!("unexpected step {:?}", other),
    };
    let reply = LoanReply::Granted { handle: 2, region: vec![0; 9] };
    match SendOutputCallback::resume(pending, reply).unwrap() {
        OperatorEvent::Output { type_info, data, .. } => {
            assert_eq!(type_info, TypeInfo::Columnar(layout()));
            let sample = data.unwrap();
            assert_eq!(sample.to_vec(), vec![1, 2, 3, 4, 5, 6, 7, 8, 9]);
            assert_eq!(sample.loan_handle(), Some(2));
        }
        other => panic!("unexpected event {:?}", other),
    }
}

#[test]
fn download_target_lies_under_the_node_build_directory() {
    assert_eq!(download_target("node", "op", "py"), "build/node/op.py");
    assert_eq!(download_target("", "", ""), "build//.");
}

#[test]
fn urls_are_downloaded_and_paths_are_local() {
    assert_eq!(
        locate_source("https://example.org/op.py".to_string(), "n", "o", "py"),
        SourceLocation::Download {
            url: "https://example.org/op.py".to_string(),
            target: "build/n/o.py".to_string(),
        }
    );
    assert_eq!(
        locate_source("ops/op.py".to_string(), "n", "o", "py"),
        SourceLocation::Local { path: "ops/op.py".to_string() }
    );
}

#[test]
fn traceback_precedes_the_error() {
    assert_eq!(traceback(Some("line 1".to_string()), "boom"), "line 1\nboom");
    assert_eq!(traceback(None, "boom"), "boom");
}

#[test]
fn trace_context_replaces_only_the_context() {
    let event = IncomingEvent::Input {
        input_id: "in".to_string(),
        metadata: Metadata {
            open_telemetry_context: "old".to_string(),
            parameters: vec![("k".to_string(), "v".to_string())],
        },
        data: Some(vec![1]),
    };
    assert!(!event.is_reload());
    assert_eq!(
        event.with_trace_context("new".to_string()),
        IncomingEvent::Input {
            input_id: "in".to_string(),
            metadata: Metadata {
                open_telemetry_context: "new".to_string(),
                parameters: vec![("k".to_string(), "v".to_string())],
            },
            data: Some(vec![1]),
        }
    );
    assert_eq!(IncomingEvent::Stop.with_trace_context("new".to_string()), IncomingEvent::Stop);
    assert!(IncomingEvent::Reload.is_reload());
}

#[test]
fn a_scheme_separator_makes_a_url() {
    assert!(source_is_url("https://example.org/op.py"));
    assert!(source_is_url("://"));
    assert!(source_is_url("a://"));
    assert!(source_is_url("\u{e9}t\u{e9}://x"));
    assert!(!source_is_url(""));
    assert!(!source_is_url(":/"));
    assert!(!source_is_url("ops/op.py"));
    assert!(!source_is_url("c:/ops//op.py"));
    assert!(!source_is_url("a:/b/"));
}

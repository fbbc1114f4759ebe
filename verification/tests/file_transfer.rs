use rdp_remote::file_transfer::{
    FileTransferData, FileTransferError, FileTransferReceiver, FileTransferRequest, FileTransferSender,
    ReceiverState, SenderState, TransferDirection, CHUNK_SIZE, MAX_FILE_SIZE,
};

#[test]
fn test_chunk_size() {
    assert_eq!(CHUNK_SIZE, 100 * 1024);
}

#[test]
fn test_sender_state_machine() {
    let mut sender = FileTransferSender::new("test.txt".to_string(), 250 * 1024).unwrap();

    assert_eq!(sender.state(), SenderState::Idle);
    assert_eq!(sender.total_chunks(), 3);

    sender.request().unwrap();
    assert_eq!(sender.state(), SenderState::WaitingAccept);

    sender.accept().unwrap();
    assert_eq!(sender.state(), SenderState::Sending);

    sender.chunk_sent();
    sender.chunk_sent();
    sender.chunk_sent();

    assert!(sender.is_complete());
    sender.complete().unwrap();
    assert_eq!(sender.state(), SenderState::Completed);
}

#[test]
fn test_sender_cancel() {
    let mut sender = FileTransferSender::new("test.txt".to_string(), 1024).unwrap();
    sender.request().unwrap();
    sender.cancel();
    assert_eq!(sender.state(), SenderState::Canceled);
    assert!(sender.is_terminal());
}

#[test]
fn test_receiver_state_machine() {
    let mut receiver = FileTransferReceiver::new();
    receiver.ready();
    assert_eq!(receiver.state(), ReceiverState::WaitingRequest);

    let request = FileTransferRequest { filename: "test.txt".to_string(), file_size: 250 * 1024 };
    receiver.accept_request(&request).unwrap();
    assert_eq!(receiver.state(), ReceiverState::Receiving);

    let chunk1 = FileTransferData { chunk_index: 0, data: vec![0u8; CHUNK_SIZE], is_last: false };
    receiver.receive_chunk(&chunk1).unwrap();

    let chunk2 = FileTransferData { chunk_index: 1, data: vec![0u8; CHUNK_SIZE], is_last: false };
    receiver.receive_chunk(&chunk2).unwrap();

    let chunk3 = FileTransferData { chunk_index: 2, data: vec![0u8; 50 * 1024], is_last: true };
    receiver.receive_chunk(&chunk3).unwrap();

    assert!(receiver.is_complete());
    receiver.complete().unwrap();
    assert_eq!(receiver.state(), ReceiverState::Completed);

    let data = receiver.take_data().unwrap();
    assert_eq!(data.len(), 250 * 1024);
}

#[test]
fn test_receiver_cancel() {
    let mut receiver = FileTransferReceiver::new();
    receiver.ready();

    let request = FileTransferRequest { filename: "test.txt".to_string(), file_size: 1024 };
    receiver.accept_request(&request).unwrap();

    let chunk = FileTransferData { chunk_index: 0, data: vec![0u8; 512], is_last: false };
    receiver.receive_chunk(&chunk).unwrap();
    receiver.cancel();

    assert_eq!(receiver.state(), ReceiverState::Canceled);
    assert!(receiver.is_terminal());
    assert!(receiver.take_data().is_none());
}

#[test]
fn test_wrong_chunk_order() {
    let mut receiver = FileTransferReceiver::new();
    receiver.ready();

    let request = FileTransferRequest { filename: "test.txt".to_string(), file_size: 2048 };
    receiver.accept_request(&request).unwrap();

    let chunk1 = FileTransferData { chunk_index: 1, data: vec![0u8; 1024], is_last: false };
    let result = receiver.receive_chunk(&chunk1);
    assert!(result.is_err());
}

#[test]
fn test_invalid_file_size() {
    let result = FileTransferSender::new("test.txt".to_string(), 0);
    assert!(result.is_err());

    let result = FileTransferSender::new("test.txt".to_string(), MAX_FILE_SIZE + 1);
    assert!(result.is_err());
}

#[test]
fn test_chunk_data_validation() {
    let chunk = FileTransferData { chunk_index: 0, data: vec![0u8; CHUNK_SIZE + 100], is_last: false };
    assert!(chunk.data.len() > CHUNK_SIZE);
}

#[test]
fn received_data_is_chunks_in_order() {
    let mut receiver = FileTransferReceiver::new();
    receiver.ready();
    let request = FileTransferRequest { filename: "a.bin".to_string(), file_size: 5 };
    receiver.accept_request(&request).unwrap();
    receiver.receive_chunk(&FileTransferData { chunk_index: 0, data: vec![1, 2, 3], is_last: false }).unwrap();
    receiver.receive_chunk(&FileTransferData { chunk_index: 1, data: vec![4, 5], is_last: true }).unwrap();
    receiver.complete().unwrap();
    assert_eq!(receiver.take_data(), Some(vec![1, 2, 3, 4, 5]));
    // The data was handed over: it is not there a second time.
    assert_eq!(receiver.take_data(), Some(vec![]));
}

#[test]
fn sender_errors() {
    match FileTransferSender::new("x".to_string(), 0) {
        Err(FileTransferError::InvalidFileSize) => {}
        _ => panic!("expected InvalidFileSize"),
    }
    match FileTransferSender::new("x".to_string(), MAX_FILE_SIZE + 1) {
        Err(FileTransferError::FileSizeTooLarge) => {}
        _ => panic!("expected FileSizeTooLarge"),
    }
    let mut sender = FileTransferSender::new("x".to_string(), MAX_FILE_SIZE).unwrap();
    assert_eq!(sender.total_chunks(), 41944);
    match sender.accept() {
        Err(FileTransferError::InvalidStateTransition) => {}
        _ => panic!("accept before request must fail"),
    }
    sender.request().unwrap();
    sender.accept().unwrap();
    sender.chunk_sent();
    assert_eq!(sender.remaining_chunks(), 41943);
    match sender.complete() {
        Err(FileTransferError::IncompleteTransfer) => {}
        _ => panic!("expected IncompleteTransfer"),
    }
}

#[test]
fn receiver_errors_and_messages() {
    let mut receiver = FileTransferReceiver::new();
    let request = FileTransferRequest { filename: "x".to_string(), file_size: 10 };
    match receiver.accept_request(&request) {
        Err(FileTransferError::InvalidStateTransition) => {}
        _ => panic!("accepting before ready must fail"),
    }
    receiver.ready();
    let empty = FileTransferRequest { filename: "x".to_string(), file_size: 0 };
    match receiver.accept_request(&empty) {
        Err(FileTransferError::InvalidFileSize) => {}
        _ => panic!("expected InvalidFileSize"),
    }
    receiver.accept_request(&request).unwrap();
    match receiver.receive_chunk(&FileTransferData { chunk_index: 3, data: vec![], is_last: false }) {
        Err(e) => assert_eq!(e.to_string(), "Unexpected chunk index: expected 0, received 3"),
        Ok(()) => panic!("out-of-order chunk accepted"),
    }
    assert_eq!(FileTransferError::FileSizeTooLarge.to_string(), "File size exceeds maximum (4294967296 bytes)");
    assert_eq!(
        FileTransferError::ChunkDataTooLarge { size: 102500, max: 102400 }.to_string(),
        "Chunk data too large: 102500 bytes (max 102400)"
    );
}

#[test]
fn transfer_info_describes_progress() {
    let mut sender = FileTransferSender::new("doc.pdf".to_string(), 300 * 1024).unwrap();
    sender.request().unwrap();
    sender.accept().unwrap();
    sender.chunk_sent();
    let info = sender.info();
    assert_eq!(info.direction, TransferDirection::Send);
    assert_eq!(info.filename, "doc.pdf");
    assert_eq!(info.file_size, 300 * 1024);
    assert_eq!(info.chunks_sent, 1);
    assert_eq!(info.total_chunks, 3);
    assert_eq!(info.state, "Sending");

    let receiver = FileTransferReceiver::new();
    let info = receiver.info();
    assert_eq!(info.direction, TransferDirection::Receive);
    assert_eq!(info.state, "Idle");
    assert_eq!(info.total_chunks, 0);
}

#[test]
fn remaining_chunks_never_goes_below_zero() {
    let mut sender = FileTransferSender::new("x".to_string(), 10).unwrap();
    sender.cancel();
    sender.chunk_sent();
    sender.chunk_sent();
    assert_eq!(sender.state(), SenderState::Canceled);
    assert_eq!(sender.remaining_chunks(), 0);
    assert!(sender.is_complete());
    match sender.complete() {
        Err(FileTransferError::InvalidStateTransition) => {}
        _ => panic!("a cancelled transfer cannot complete"),
    }
}

#[test]
fn second_transfer_counts_chunks_from_zero() {
    let mut receiver = FileTransferReceiver::new();
    receiver.ready();
    receiver.accept_request(&FileTransferRequest { filename: "a".to_string(), file_size: 3 }).unwrap();
    receiver.receive_chunk(&FileTransferData { chunk_index: 0, data: vec![1, 2, 3], is_last: true }).unwrap();
    receiver.complete().unwrap();
    assert_eq!(receiver.take_data(), Some(vec![1, 2, 3]));

    receiver.ready();
    receiver.accept_request(&FileTransferRequest { filename: "b".to_string(), file_size: 2 }).unwrap();
    assert_eq!(receiver.info().chunks_sent, 0);
    assert!(!receiver.is_complete());
    receiver.receive_chunk(&FileTransferData { chunk_index: 0, data: vec![7, 8], is_last: true }).unwrap();
    assert!(receiver.is_complete());
    receiver.complete().unwrap();
    assert_eq!(receiver.take_data(), Some(vec![7, 8]));
}

#[test]
fn oversized_chunk_is_refused() {
    let mut receiver = FileTransferReceiver::new();
    receiver.ready();
    receiver.accept_request(&FileTransferRequest { filename: "a".to_string(), file_size: 300 * 1024 }).unwrap();
    let chunk = FileTransferData { chunk_index: 0, data: vec![0u8; CHUNK_SIZE + 100], is_last: false };
    match receiver.receive_chunk(&chunk) {
        Err(FileTransferError::ChunkDataTooLarge { size, max }) => {
            assert_eq!(size, CHUNK_SIZE + 100);
            assert_eq!(max, CHUNK_SIZE);
        }
        _ => panic!("an oversized chunk must be refused"),
    }
    assert_eq!(receiver.info().chunks_sent, 0);
    let chunk = FileTransferData { chunk_index: 0, data: vec![0u8; CHUNK_SIZE], is_last: false };
    assert!(receiver.receive_chunk(&chunk).is_ok());
}

#[test]
fn state_and_index_are_checked_before_size() {
    let mut receiver = FileTransferReceiver::new();
    let big = FileTransferData { chunk_index: 0, data: vec![0u8; CHUNK_SIZE + 1], is_last: false };
    // Not receiving: the state is refused first, whatever the size.
    match receiver.receive_chunk(&big) {
        Err(FileTransferError::InvalidStateTransition) => {}
        _ => panic!("expected InvalidStateTransition"),
    }
    receiver.ready();
    receiver.accept_request(&FileTransferRequest { filename: "a".to_string(), file_size: 10 }).unwrap();
    // Wrong index: the index is refused before the size.
    let big_wrong = FileTransferData { chunk_index: 2, data: vec![0u8; CHUNK_SIZE + 1], is_last: false };
    match receiver.receive_chunk(&big_wrong) {
        Err(FileTransferError::UnexpectedChunkIndex { expected: 0, received: 2 }) => {}
        _ => panic!("expected UnexpectedChunkIndex"),
    }
    // Right index, too big: the size is refused.
    match receiver.receive_chunk(&big) {
        Err(FileTransferError::ChunkDataTooLarge { .. }) => {}
        _ => panic!("expected ChunkDataTooLarge"),
    }
}

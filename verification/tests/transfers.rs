use libfabric_rs::builder::GetInfoRequest;
use libfabric_rs::completion::{
    cq_waitable, read_cq_entry, CompletionQueueFd, CqEntry, CqEvent, CqReadResult, CqStep,
};
use libfabric_rs::operation::{Delivered, Delivery};
use libfabric_rs::setup::SetupProgress;
use libfabric_rs::{FabricEndpoint, FabricError, PeerId};

const EAGAIN: isize = -11;

fn endpoint() -> FabricEndpoint {
    let mut setup = GetInfoRequest::returned(0).unwrap();
    loop {
        match setup.returned(0).ok().unwrap() {
            SetupProgress::Continue(next) => setup = next,
            SetupProgress::Ready(endpoint) => return endpoint,
        }
    }
}

fn read(context: usize, len: usize) -> CqEvent {
    CqEvent::Read { ret: 1, entry: CqEntry { context, len } }
}

fn nothing() -> CqEvent {
    CqEvent::Read { ret: EAGAIN, entry: CqEntry { context: 0, len: 0 } }
}

#[test]
fn send_asks_for_the_whole_buffer() {
    let mut endpoint = endpoint();
    let (request, _outcome) = endpoint.send_to(PeerId(9), vec![1, 2, 3, 4]);
    assert_eq!(request.peer, PeerId(9));
    assert_eq!(request.len, 4);
}

#[test]
fn completed_send_returns_its_buffer() {
    let mut endpoint = endpoint();
    let (request, outcome) = endpoint.send_to(PeerId(9), vec![1, 2, 3, 4]);
    assert_eq!(endpoint.send_posted(request.context, 0), Ok(()));
    let delivered = endpoint.handle_completion(CqEntry { context: request.context, len: 99 });
    assert!(matches!(delivered, Some(Delivered::Accepted)));
    let result = FabricEndpoint::send_finished(outcome.blocking_recv());
    assert_eq!(result, Ok(vec![1, 2, 3, 4]));
}

#[test]
fn buffers_stay_in_place_while_they_are_under_way() {
    let mut endpoint = endpoint();
    let buffer = vec![8u8; 256];
    let place = buffer.as_ptr();
    let (first, outcome) = endpoint.send_to(PeerId(1), buffer);
    for _ in 0..50 {
        let _ = endpoint.recv(vec![0; 8]);
    }
    endpoint.handle_completion(CqEntry { context: first.context, len: 256 });
    let back = FabricEndpoint::send_finished(outcome.blocking_recv()).unwrap();
    assert_eq!(back.as_ptr(), place);
}

#[test]
fn refused_send_is_reported_and_forgotten() {
    let mut endpoint = endpoint();
    let (request, outcome) = endpoint.send_to(PeerId(9), vec![1]);
    let error = endpoint.send_posted(request.context, -11).unwrap_err();
    assert_eq!(error, FabricError::Send(-11));
    assert_eq!(error.message(), "fi_send failed: -11");
    let result = FabricEndpoint::send_finished(outcome.blocking_recv());
    assert_eq!(result, Err(FabricError::ChannelClosed));
    assert!(endpoint.handle_completion(CqEntry { context: request.context, len: 1 }).is_none());
}

#[test]
fn completed_receive_returns_memory_and_length() {
    let mut endpoint = endpoint();
    let (request, outcome) = endpoint.recv(vec![5; 64]);
    assert_eq!(request.src_addr, 0);
    assert_eq!(request.len, 64);
    assert_eq!(endpoint.recv_posted(request.context, 0), Ok(()));
    endpoint.handle_completion(CqEntry { context: request.context, len: 12 });
    let (loan, len) = FabricEndpoint::recv_finished(outcome.blocking_recv()).unwrap();
    assert_eq!(len, 12);
    assert_eq!(loan.into_vec(), vec![5; 64]);
}

#[test]
fn refused_receive_is_reported_and_forgotten() {
    let mut endpoint = endpoint();
    let (request, outcome) = endpoint.recv(vec![0; 4]);
    let error = endpoint.recv_posted(request.context, -5).unwrap_err();
    assert_eq!(error, FabricError::Recv(-5));
    assert_eq!(error.message(), "fi_recv failed: -5");
    let error = FabricEndpoint::recv_finished(outcome.blocking_recv()).unwrap_err();
    assert_eq!(error.message(), "channel closed");
}

#[test]
fn positive_return_counts_as_posted() {
    let mut endpoint = endpoint();
    let (request, mut outcome) = endpoint.send_to(PeerId(1), vec![1]);
    assert_eq!(endpoint.send_posted(request.context, 7), Ok(()));
    assert!(outcome.try_recv().is_err());
    assert!(endpoint.handle_completion(CqEntry { context: request.context, len: 1 }).is_some());
}

#[test]
fn operations_under_way_have_different_contexts() {
    let mut endpoint = endpoint();
    let mut contexts = Vec::new();
    let mut outcomes = Vec::new();
    for i in 0..20u8 {
        let (request, outcome) = endpoint.send_to(PeerId(1), vec![i]);
        contexts.push(request.context);
        outcomes.push(outcome);
    }
    for i in 0..20 {
        for j in 0..i {
            assert_ne!(contexts[i], contexts[j]);
        }
    }
    for (i, outcome) in outcomes.into_iter().enumerate().rev() {
        endpoint.handle_completion(CqEntry { context: contexts[i], len: 1 });
        let result = FabricEndpoint::send_finished(outcome.blocking_recv());
        assert_eq!(result, Ok(vec![i as u8]));
    }
}

#[test]
fn completions_come_in_any_order() {
    let mut endpoint = endpoint();
    let (first, first_outcome) = endpoint.send_to(PeerId(1), vec![1]);
    let (second, second_outcome) = endpoint.recv(vec![2]);
    endpoint.handle_completion(CqEntry { context: second.context, len: 1 });
    endpoint.handle_completion(CqEntry { context: first.context, len: 1 });
    assert_eq!(FabricEndpoint::send_finished(first_outcome.blocking_recv()), Ok(vec![1]));
    let (loan, _) = FabricEndpoint::recv_finished(second_outcome.blocking_recv()).unwrap();
    assert_eq!(loan.into_vec(), vec![2]);
}

#[test]
fn operation_completes_once() {
    let mut endpoint = endpoint();
    let (request, _outcome) = endpoint.send_to(PeerId(1), vec![1]);
    let entry = CqEntry { context: request.context, len: 1 };
    assert!(endpoint.handle_completion(entry).is_some());
    assert!(endpoint.handle_completion(entry).is_none());
}

#[test]
fn unknown_context_changes_nothing() {
    let mut endpoint = endpoint();
    assert!(endpoint.take_completed(CqEntry { context: 0, len: 1 }).is_none());
    assert!(endpoint.take_completed(CqEntry { context: usize::MAX, len: 1 }).is_none());
    let (request, _outcome) = endpoint.send_to(PeerId(1), vec![1]);
    assert!(endpoint.take_completed(CqEntry { context: usize::MAX, len: 1 }).is_none());
    assert!(endpoint.take_completed(CqEntry { context: request.context, len: 1 }).is_some());
}

#[test]
fn context_is_free_again_after_the_end() {
    let mut endpoint = endpoint();
    let (first, _) = endpoint.send_to(PeerId(1), vec![1]);
    endpoint.handle_completion(CqEntry { context: first.context, len: 1 });
    let (second, outcome) = endpoint.send_to(PeerId(1), vec![2]);
    endpoint.handle_completion(CqEntry { context: second.context, len: 1 });
    assert_eq!(FabricEndpoint::send_finished(outcome.blocking_recv()), Ok(vec![2]));
}

#[test]
fn abandoned_send_stays_until_it_completes() {
    let mut endpoint = endpoint();
    let (request, outcome) = endpoint.send_to(PeerId(1), vec![1, 2]);
    drop(outcome);
    let (other, _kept) = endpoint.send_to(PeerId(1), vec![3]);
    assert_ne!(other.context, request.context);
    let delivered = endpoint.handle_completion(CqEntry { context: request.context, len: 2 });
    match delivered {
        Some(Delivered::SendAbandoned(outcome)) => assert_eq!(outcome, Ok(vec![1, 2])),
        _ => panic!("nobody was there to be told"),
    }
}

#[test]
fn abandoned_receive_stays_until_it_completes() {
    let mut endpoint = endpoint();
    let (request, outcome) = endpoint.recv(vec![7; 3]);
    drop(outcome);
    let delivered = endpoint.handle_completion(CqEntry { context: request.context, len: 2 });
    match delivered {
        Some(Delivered::RecvAbandoned(Ok((loan, len)))) => {
            assert_eq!(loan.into_vec(), vec![7; 3]);
            assert_eq!(len, 2);
        }
        _ => panic!("nobody was there to be told"),
    }
}

#[test]
fn delivery_names_the_outcome() {
    let mut endpoint = endpoint();
    let (request, mut outcome) = endpoint.send_to(PeerId(1), vec![1, 2]);
    let delivery = endpoint.take_completed(CqEntry { context: request.context, len: 2 }).unwrap();
    assert!(outcome.try_recv().is_err());
    assert!(matches!(&delivery, Delivery::Send { outcome: Ok(b), .. } if b == &vec![1, 2]));
    delivery.announce();
    assert_eq!(outcome.try_recv().unwrap(), Ok(vec![1, 2]));
}

#[test]
fn read_results() {
    let entry = CqEntry { context: 3, len: 4 };
    assert_eq!(read_cq_entry(1, entry), CqReadResult::CqReadSuccess(entry));
    assert_eq!(read_cq_entry(2, entry), CqReadResult::CqReadSuccess(entry));
    assert_eq!(read_cq_entry(-11, entry), CqReadResult::CqErrorAgain);
    assert_eq!(read_cq_entry(0, entry), CqReadResult::CqError);
    assert_eq!(read_cq_entry(-259, entry), CqReadResult::CqErrorAvailable);
    assert_eq!(read_cq_entry(-5, entry), CqReadResult::CqError);
}

#[test]
fn only_zero_allows_a_wait() {
    assert!(cq_waitable(0));
    assert!(!cq_waitable(-11));
    assert!(!cq_waitable(1));
}

#[test]
fn descriptor_comes_from_fi_control() {
    assert_eq!(CompletionQueueFd::new(0, 17).unwrap().as_raw_fd(), 17);
    let error = CompletionQueueFd::new(-38, 17).unwrap_err();
    assert_eq!(error, FabricError::Control);
    assert_eq!(error.message(), "fi_control failed");
}

#[test]
fn reader_waits_reads_and_marks() {
    let mut endpoint = endpoint();
    let (first, first_outcome) = endpoint.send_to(PeerId(1), vec![1]);
    let (second, second_outcome) = endpoint.send_to(PeerId(2), vec![2]);
    let mut step = CqStep::TryWait;
    step = endpoint.read_cq(step, CqEvent::TryWaited(0)).0;
    assert_eq!(step, CqStep::AwaitReadable);
    step = endpoint.read_cq(step, CqEvent::Readable).0;
    assert_eq!(step, CqStep::ReadEntry { woken: true });
    let (next, delivered) = endpoint.read_cq(step, read(second.context, 1));
    assert_eq!(next, CqStep::ReadEntry { woken: true });
    assert!(matches!(delivered, Some(Delivered::Accepted)));
    let (next, _) = endpoint.read_cq(next, read(first.context, 1));
    let (next, delivered) = endpoint.read_cq(next, nothing());
    assert_eq!(next, CqStep::ClearReady);
    assert!(delivered.is_none());
    assert_eq!(endpoint.read_cq(next, CqEvent::Cleared).0, CqStep::TryWait);
    assert_eq!(FabricEndpoint::send_finished(first_outcome.blocking_recv()), Ok(vec![1]));
    assert_eq!(FabricEndpoint::send_finished(second_outcome.blocking_recv()), Ok(vec![2]));
}

#[test]
fn reader_does_not_wait_when_it_may_not() {
    let mut endpoint = endpoint();
    let (step, _) = endpoint.read_cq(CqStep::TryWait, CqEvent::TryWaited(-11));
    assert_eq!(step, CqStep::ReadEntry { woken: false });
    let (step, _) = endpoint.read_cq(step, nothing());
    assert_eq!(step, CqStep::TryWait);
}

#[test]
fn unreadable_queue_ends_the_reading_and_no_operation() {
    let mut endpoint = endpoint();
    let (request, mut outcome) = endpoint.send_to(PeerId(1), vec![1]);
    let failed = CqEvent::Read { ret: -5, entry: CqEntry { context: request.context, len: 1 } };
    let (step, delivered) = endpoint.read_cq(CqStep::ReadEntry { woken: false }, failed);
    assert_eq!(step, CqStep::TryWait);
    assert!(delivered.is_none());
    assert!(outcome.try_recv().is_err());
    assert!(endpoint.handle_completion(CqEntry { context: request.context, len: 1 }).is_some());
}

#[test]
fn failed_wait_ends_the_reader() {
    let mut endpoint = endpoint();
    let (step, _) = endpoint.read_cq(CqStep::AwaitReadable, CqEvent::WaitFailed);
    assert_eq!(step, CqStep::Failed);
    assert_eq!(endpoint.read_cq(step, CqEvent::Readable).0, CqStep::Failed);
}

#[test]
fn event_that_answers_another_step_changes_nothing() {
    let mut endpoint = endpoint();
    let (request, _outcome) = endpoint.send_to(PeerId(1), vec![1]);
    let (step, delivered) = endpoint.read_cq(CqStep::TryWait, read(request.context, 1));
    assert_eq!(step, CqStep::TryWait);
    assert!(delivered.is_none());
    assert!(endpoint.handle_completion(CqEntry { context: request.context, len: 1 }).is_some());
}

fn error_available() -> CqEvent {
    CqEvent::Read { ret: -259, entry: CqEntry { context: 0, len: 0 } }
}

#[test]
fn send_that_fails_later_is_an_error() {
    let mut endpoint = endpoint();
    let (other, mut other_outcome) = endpoint.send_to(PeerId(1), vec![7]);
    let (request, outcome) = endpoint.send_to(PeerId(2), vec![1, 2]);
    assert_eq!(endpoint.send_posted(request.context, 0), Ok(()));
    let (step, delivered) =
        endpoint.read_cq(CqStep::ReadEntry { woken: true }, error_available());
    assert_eq!(step, CqStep::ReadError { woken: true });
    assert!(delivered.is_none());
    let event = CqEvent::ErrorRead { ret: 1, context: request.context, err: 113 };
    let (step, delivered) = endpoint.read_cq(step, event);
    assert_eq!(step, CqStep::ReadEntry { woken: true });
    assert!(matches!(delivered, Some(Delivered::Accepted)));
    let error = FabricEndpoint::send_finished(outcome.blocking_recv()).unwrap_err();
    assert_eq!(error, FabricError::Completion(113));
    assert_eq!(error.message(), "operation failed: 113");
    assert!(endpoint.take_completed(CqEntry { context: request.context, len: 2 }).is_none());
    assert!(other_outcome.try_recv().is_err());
    assert!(endpoint.handle_completion(CqEntry { context: other.context, len: 1 }).is_some());
}

#[test]
fn receive_that_fails_later_is_an_error() {
    let mut endpoint = endpoint();
    let (request, outcome) = endpoint.recv(vec![0; 8]);
    assert_eq!(endpoint.recv_posted(request.context, 0), Ok(()));
    let (step, _) = endpoint.read_cq(CqStep::ReadEntry { woken: false }, error_available());
    let event = CqEvent::ErrorRead { ret: 1, context: request.context, err: 265 };
    let (step, _) = endpoint.read_cq(step, event);
    assert_eq!(step, CqStep::ReadEntry { woken: false });
    let error = FabricEndpoint::recv_finished(outcome.blocking_recv()).unwrap_err();
    assert_eq!(error, FabricError::Completion(265));
}

#[test]
fn failure_nobody_waits_for_is_left_over() {
    let mut endpoint = endpoint();
    let (request, outcome) = endpoint.send_to(PeerId(1), vec![1]);
    drop(outcome);
    match endpoint.handle_failure(request.context, 5) {
        Some(Delivered::SendAbandoned(outcome)) => {
            assert_eq!(outcome, Err(FabricError::Completion(5)));
        }
        _ => panic!("nobody was there to be told"),
    }
    assert!(endpoint.handle_failure(request.context, 5).is_none());
    assert!(endpoint.take_failed(request.context, 5).is_none());
}

#[test]
fn error_entry_that_cannot_be_read_stops_the_reading() {
    let mut endpoint = endpoint();
    let (request, mut outcome) = endpoint.send_to(PeerId(1), vec![1]);
    let event = CqEvent::ErrorRead { ret: -11, context: request.context, err: 5 };
    let (step, delivered) = endpoint.read_cq(CqStep::ReadError { woken: true }, event);
    assert_eq!(step, CqStep::ClearReady);
    assert!(delivered.is_none());
    let (step, _) = endpoint.read_cq(CqStep::ReadError { woken: false }, event);
    assert_eq!(step, CqStep::TryWait);
    assert!(outcome.try_recv().is_err());
    assert!(endpoint.handle_completion(CqEntry { context: request.context, len: 1 }).is_some());
}

#[test]
fn received_bytes_come_back_in_the_memory_that_was_lent() {
    let mut endpoint = endpoint();
    let mut buffer = vec![0u8; 8];
    let place = buffer.as_ptr();
    buffer[..5].copy_from_slice(b"Hello");
    let (request, outcome) = endpoint.recv(buffer);
    endpoint.handle_completion(CqEntry { context: request.context, len: 5 });
    let (loan, len) = FabricEndpoint::recv_finished(outcome.blocking_recv()).unwrap();
    let back = loan.into_vec();
    assert_eq!(len, 5);
    assert_eq!(back, vec![72, 101, 108, 108, 111, 0, 0, 0]);
    assert_eq!(back.as_ptr(), place);
}

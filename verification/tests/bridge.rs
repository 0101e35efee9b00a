use rocust_lib::endpoint::{EndPoint, Method};
use rocust_lib::logger::LogType;
use rocust_lib::test::Test;
use rocust_lib::worker::{FrameEvent, WebSocketMessage, Worker};
use rocust_lib::Status;

fn fresh_worker() -> Worker {
    Worker::new("ws://localhost:9".to_string(), "worker.log".to_string())
}

fn sample_test() -> Test {
    Test::new(
        2,
        Some(30),
        (0, 1),
        "http://localhost:1".to_string(),
        vec![EndPoint::new(Method::GET, "/".to_string(), None)],
        None,
    )
}

#[test]
fn invalid_text_logs_one_error_and_changes_nothing() {
    let mut worker = fresh_worker();
    worker.handle_frame(FrameEvent::InvalidText);
    assert_eq!(worker.logger.buffer.len(), 1);
    assert_eq!(worker.logger.buffer[0].0, LogType::ERROR);
    assert_eq!(worker.logger.buffer[0].1, "Invalid message");
    // the connection loop goes on: nothing else moved
    assert!(worker.test.is_none());
    assert!(!worker.cancelled);
    assert!(!worker.test_started);
}

#[test]
fn create_clears_run_time_and_logs_count() {
    let mut worker = fresh_worker();
    worker.handle_frame(FrameEvent::Command(WebSocketMessage::Create(sample_test(), 2)));
    let held = worker.test.as_ref().unwrap();
    assert_eq!(held.run_time, None);
    assert_eq!(held.status, Status::CREATED);
    assert_eq!(worker.logger.buffer.len(), 1);
    assert_eq!(worker.logger.buffer[0].0, LogType::INFO);
    assert_eq!(worker.logger.buffer[0].1, "Creating Test with [2] users");
}

#[test]
fn start_marks_test_spawned() {
    let mut worker = fresh_worker();
    worker.handle_frame(FrameEvent::Command(WebSocketMessage::Create(sample_test(), 2)));
    worker.handle_frame(FrameEvent::Command(WebSocketMessage::Start));
    assert!(worker.test_started);
    assert!(!worker.cancelled);
    assert_eq!(worker.logger.buffer.last().unwrap().1, "Starting test");
}

#[test]
fn stop_command_then_finish_command_stays_stopped() {
    let mut worker = fresh_worker();
    worker.handle_frame(FrameEvent::Command(WebSocketMessage::Create(sample_test(), 2)));
    worker.handle_frame(FrameEvent::Command(WebSocketMessage::Start));
    worker.handle_frame(FrameEvent::Command(WebSocketMessage::Stop));
    assert!(worker.cancelled);
    assert_eq!(worker.test.as_ref().unwrap().status, Status::STOPPED);
    worker.handle_frame(FrameEvent::Command(WebSocketMessage::Finish));
    assert_eq!(worker.test.as_ref().unwrap().status, Status::STOPPED);
}

#[test]
fn finish_command_without_stop_finishes() {
    let mut worker = fresh_worker();
    worker.handle_frame(FrameEvent::Command(WebSocketMessage::Create(sample_test(), 2)));
    worker.handle_frame(FrameEvent::Command(WebSocketMessage::Finish));
    assert!(worker.cancelled);
    assert_eq!(worker.test.as_ref().unwrap().status, Status::FINISHED);
}

#[test]
fn close_event_stops_test_and_session() {
    let mut worker = fresh_worker();
    worker.handle_frame(FrameEvent::Command(WebSocketMessage::Create(sample_test(), 2)));
    worker.handle_frame(FrameEvent::Close);
    assert!(worker.cancelled);
    assert_eq!(worker.test.as_ref().unwrap().status, Status::STOPPED);
    let n = worker.logger.buffer.len();
    assert_eq!(worker.logger.buffer[n - 2].1, "Closing connection");
    assert_eq!(worker.logger.buffer[n - 1].1, "Stopping test");
}

#[test]
fn shutdown_flushes_every_buffered_line() {
    let mut worker = fresh_worker();
    worker.handle_frame(FrameEvent::InvalidText);
    let lines = worker.shutdown();
    assert_eq!(worker.logger.buffer.len(), 0);
    assert_eq!(lines.len(), 2);
    assert_eq!(lines[0].1, "Invalid message");
    assert_eq!(lines[1].1, "Terminating... Bye!");
    assert_eq!(lines[1].0, LogType::INFO);
}

#[test]
fn other_frames_are_ignored() {
    let mut worker = fresh_worker();
    worker.handle_frame(FrameEvent::Other);
    assert_eq!(worker.logger.buffer.len(), 0);
    assert!(worker.test.is_none());
    assert!(!worker.cancelled);
}

#[test]
fn stop_test_without_a_test_changes_nothing() {
    let mut worker = fresh_worker();
    worker.stop_test();
    assert!(worker.test.is_none());
    assert!(!worker.cancelled);
    assert_eq!(worker.logger.buffer.len(), 0);
}

#[test]
fn finish_test_forwards_to_held_test() {
    let mut worker = fresh_worker();
    worker.test = Some(sample_test());
    worker.finish_test();
    assert_eq!(worker.test.as_ref().unwrap().status, Status::FINISHED);
    // forwarding alone does not cancel the worker's own loop
    assert!(!worker.cancelled);
}

#[test]
fn run_test_notes_the_spawn() {
    let mut worker = fresh_worker();
    worker.run_test();
    assert!(worker.test_started);
}

#[test]
fn terminal_statuses() {
    assert!(!Status::CREATED.is_terminal());
    assert!(!Status::RUNNING.is_terminal());
    assert!(Status::STOPPED.is_terminal());
    assert!(Status::FINISHED.is_terminal());
}

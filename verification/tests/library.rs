use web_server::client::{
    client_counts, client_message, results_header_line, results_row_line, CLIENT_COUNT_STEP,
    FIRST_CLIENT_COUNT, LAST_CLIENT_COUNT, MESSAGES_PER_CLIENT,
};
use web_server::decimal::decimal_bytes;
use web_server::echo::{echo_reply, server_reply, READ_BUFFER_SIZE};
use web_server::http::{http_response, route, Page};
use web_server::parker::Parker;
use web_server::reactor::{timer_action, Event, Reactor, Task, TaskPoll, TimerAction};

#[test]
fn parker_fresh_waits() {
    let mut p = Parker::new();
    assert!(!p.park());
    let mut d = Parker::default();
    assert!(!d.park());
}

#[test]
fn parker_unpark_then_park_resumes_once() {
    let mut p = Parker::new();
    p.unpark();
    assert!(p.park());
    assert!(!p.park());
}

#[test]
fn parker_unpark_twice_is_one_token() {
    let mut p = Parker::new();
    p.unpark();
    p.unpark();
    assert!(p.park());
    assert!(!p.park());
}

#[test]
fn reactor_first_poll_registers_timer() {
    let mut r: Reactor<u32> = Reactor::new();
    let t = Task::new(3, 7);
    assert_eq!(t.id, 7);
    assert_eq!(t.data, 3);
    let (out, ev) = t.poll(&mut r, 100);
    assert_eq!(out, TaskPoll::Pending);
    assert_eq!(ev, Some(Event::Timeout(3, 7)));
    assert!(!r.is_ready(7));
}

#[test]
fn reactor_second_poll_starts_no_timer() {
    let mut r: Reactor<u32> = Reactor::new();
    let t = Task::new(1, 2);
    let _ = t.poll(&mut r, 10);
    let (out, ev) = t.poll(&mut r, 11);
    assert_eq!(out, TaskPoll::Pending);
    assert_eq!(ev, None);
    // the waker kept is the one of the latest poll
    assert!(r.is_waiting(2));
    assert_eq!(r.wake(2), 11);
    assert!(!r.is_waiting(2));
}

#[test]
fn reactor_poll_wake_poll_completes() {
    let mut r: Reactor<&str> = Reactor::new();
    let t = Task::new(2, 1);
    let _ = t.poll(&mut r, "first");
    assert!(r.is_waiting(1));
    assert_eq!(r.wake(1), "first");
    assert!(r.is_ready(1));
    let (out, ev) = t.poll(&mut r, "second");
    assert_eq!(out, TaskPoll::Ready(1));
    assert_eq!(ev, None);
    assert!(!r.is_ready(1));
    // a finished task is neither waiting nor ready
    assert!(r.contains(1));
    assert!(!r.is_waiting(1));
}

#[test]
fn reactor_tasks_are_independent() {
    let mut r: Reactor<u8> = Reactor::new();
    let a = Task::new(1, 1);
    let b = Task::new(5, 2);
    let _ = a.poll(&mut r, 1);
    let (_, ev) = b.poll(&mut r, 2);
    assert_eq!(ev, Some(Event::Timeout(5, 2)));
    assert_eq!(r.wake(1), 1);
    assert!(r.is_ready(1));
    assert!(!r.is_ready(2));
    assert!(!r.is_ready(3));
}

#[test]
fn reactor_register_and_close() {
    let mut r: Reactor<u8> = Reactor::new();
    assert!(!r.contains(12));
    assert_eq!(r.register(4, 9, 12), Event::Timeout(4, 12));
    assert!(r.contains(12));
    assert!(!r.is_ready(12));
    assert_eq!(r.close(), Event::Close);
}

#[test]
fn decimal_values() {
    assert_eq!(decimal_bytes(0), b"0".to_vec());
    assert_eq!(decimal_bytes(7), b"7".to_vec());
    assert_eq!(decimal_bytes(10), b"10".to_vec());
    assert_eq!(decimal_bytes(1234567), b"1234567".to_vec());
    assert_eq!(decimal_bytes(usize::MAX), usize::MAX.to_string().into_bytes());
}

#[test]
fn decimal_round_trip() {
    for n in [0usize, 1, 9, 10, 99, 100, 65535, 1_000_000_007] {
        let text = String::from_utf8(decimal_bytes(n)).unwrap();
        assert_eq!(text.parse::<usize>().unwrap(), n);
    }
}

#[test]
fn route_index_only_for_exact_line() {
    assert_eq!(route("GET / HTTP/1.1"), Page::Index);
    assert_eq!(route("GET /other HTTP/1.1"), Page::NotFound);
    assert_eq!(route("GET / HTTP/1.0"), Page::NotFound);
    assert_eq!(route("get / HTTP/1.1"), Page::NotFound);
    assert_eq!(route(""), Page::NotFound);
}

#[test]
fn page_files_and_status() {
    assert_eq!(Page::Index.status_line(), "HTTP/1.1 200 OK");
    assert_eq!(Page::Index.file_name(), "hello.html");
    assert_eq!(Page::NotFound.status_line(), "HTTP/1.1 404 NOT FOUND");
    assert_eq!(Page::NotFound.file_name(), "404.html");
}

#[test]
fn response_layout() {
    let r = http_response("HTTP/1.1 200 OK", "<p>hi</p>");
    assert_eq!(
        r,
        b"HTTP/1.1 200 OK\r\nContent-Length: 9\r\n\r\n<p>hi</p>".to_vec()
    );
}

#[test]
fn response_length_counts_bytes() {
    let body = "héllo";
    let r = http_response("HTTP/1.1 404 NOT FOUND", body);
    let expected = format!("HTTP/1.1 404 NOT FOUND\r\nContent-Length: {}\r\n\r\n{}", body.len(), body);
    assert_eq!(r, expected.into_bytes());
    assert!(String::from_utf8(r).unwrap().contains("Content-Length: 6\r\n"));
}

#[test]
fn response_empty_body() {
    let r = http_response("HTTP/1.1 200 OK", "");
    assert_eq!(r, b"HTTP/1.1 200 OK\r\nContent-Length: 0\r\n\r\n".to_vec());
}

#[test]
fn server_reply_closed_peer() {
    assert_eq!(server_reply(b""), None);
}

#[test]
fn server_reply_prefixes_message() {
    let r = server_reply(b"Client 1 says: 1").unwrap();
    assert_eq!(String::from_utf8(r).unwrap(), "服务器响应: Client 1 says: 1");
}

#[test]
fn server_reply_replaces_bad_bytes() {
    let r = server_reply(&[b'a', 0xff, b'b']).unwrap();
    assert_eq!(String::from_utf8(r).unwrap(), "服务器响应: a\u{FFFD}b");
}

#[test]
fn echo_reply_same_bytes() {
    assert_eq!(echo_reply(b""), None);
    assert_eq!(echo_reply(&[1, 2, 0xff]), Some(vec![1, 2, 0xff]));
    assert_eq!(READ_BUFFER_SIZE, 1024);
}

#[test]
fn client_messages() {
    assert_eq!(client_message(0, 1), b"Client 1 says: 1".to_vec());
    assert_eq!(client_message(41, 10), b"Client 42 says: 10".to_vec());
    assert_eq!(MESSAGES_PER_CLIENT, 10);
}

#[test]
fn client_count_schedule() {
    let counts = client_counts(FIRST_CLIENT_COUNT, LAST_CLIENT_COUNT, CLIENT_COUNT_STEP);
    let expected: Vec<usize> = (0..=10000).step_by(10).collect();
    assert_eq!(counts, expected);
    assert_eq!(counts.len(), 1001);
    assert_eq!(client_counts(3, 10, 4), vec![3, 7]);
    assert_eq!(client_counts(5, 5, 1), vec![5]);
    assert_eq!(client_counts(6, 5, 1), Vec::<usize>::new());
}

#[test]
fn results_file_lines() {
    assert_eq!(results_header_line(), b"client_count,total_duration\n".to_vec());
    assert_eq!(results_row_line(20, "0.5"), b"20,0.5\n".to_vec());
}

#[test]
fn timer_steps() {
    assert_eq!(timer_action(Event::Close), TimerAction::Stop);
    assert_eq!(timer_action(Event::Timeout(3, 8)), TimerAction::WakeAfter { seconds: 3, id: 8 });
}

use rocust_lib::endpoint::{EndPoint, Method};
use rocust_lib::test::{Test, TestError};
use rocust_lib::user::User;
use rocust_lib::Status;

fn one_endpoint_test(user_count: usize) -> Test {
    let mut test = Test::new(
        user_count,
        Some(2),
        (0, 0),
        "http://localhost:1".to_string(),
        vec![EndPoint::new(Method::GET, "/".to_string(), None)],
        None,
    );
    test.spawn_users();
    test.start_run(0);
    for u in test.users.iter_mut() {
        u.start();
    }
    test
}

#[test]
fn created_becomes_running_once() {
    let mut user = User::new("0".to_string(), (0, 0), "h".to_string(), None);
    assert_eq!(user.status, Status::CREATED);
    user.start();
    assert_eq!(user.status, Status::RUNNING);
    user.start();
    assert_eq!(user.status, Status::RUNNING);
}

#[test]
fn nothing_leaves_stopped() {
    let mut user = User::new("0".to_string(), (0, 0), "h".to_string(), None);
    user.stop();
    assert_eq!(user.status, Status::STOPPED);
    user.start();
    assert_eq!(user.status, Status::STOPPED);
    user.finish();
    assert_eq!(user.status, Status::STOPPED);
}

#[test]
fn finish_without_stop_finishes() {
    let mut user = User::new("0".to_string(), (0, 0), "h".to_string(), None);
    user.start();
    user.finish();
    assert_eq!(user.status, Status::FINISHED);
}

#[test]
fn stop_then_finish_stays_stopped() {
    let mut test = one_endpoint_test(1);
    test.stop();
    test.finish();
    assert_eq!(test.status, Status::STOPPED);
    assert_eq!(test.users[0].status, Status::STOPPED);
}

#[test]
fn stop_a_user_unknown_id_not_found() {
    let mut test = one_endpoint_test(2);
    test.run_cycle(0, 0, &Some((200, 5)));
    let before_requests = test.global_results.total_requests;
    let r = test.stop_a_user(99);
    assert_eq!(r, Err(TestError::UserNotFound));
    assert_eq!(test.users.len(), 2);
    assert_eq!(test.users[0].status, Status::RUNNING);
    assert_eq!(test.users[1].status, Status::RUNNING);
    assert_eq!(test.global_results.total_requests, before_requests);
    assert_eq!(test.status, Status::RUNNING);
}

#[test]
fn stop_a_user_freezes_only_that_user() {
    let mut test = one_endpoint_test(2);
    test.run_cycle(0, 0, &Some((200, 5)));
    test.run_cycle(1, 0, &Some((200, 5)));
    assert!(test.stop_a_user(0).is_ok());
    assert_eq!(test.users[0].status, Status::STOPPED);
    assert_eq!(test.users[1].status, Status::RUNNING);
    let frozen = test.users[0].results.total_requests;
    // only the running client keeps feeding the global counters
    test.run_cycle(1, 0, &Some((200, 5)));
    test.run_cycle(1, 0, &Some((500, 5)));
    assert_eq!(test.users[0].results.total_requests, frozen);
    assert_eq!(test.users[1].results.total_requests, 3);
    assert_eq!(test.global_results.total_requests, 4);
}

#[test]
fn successful_bounded_run_finishes() {
    let mut test = one_endpoint_test(1);
    for _ in 0..20 {
        test.run_cycle(0, 0, &Some((200, 1)));
    }
    test.complete_run(2000);
    assert_eq!(test.status, Status::FINISHED);
    assert_eq!(test.users[0].status, Status::FINISHED);
    assert_eq!(test.elapsed_time(), Some(2000));
    test.finalize_rates(2000);
    assert!(test.global_results.total_requests > 0);
    assert_eq!(test.global_results.total_requests, 20);
    assert_eq!(test.global_results.total_failed, 0);
    assert_eq!(test.global_results.total_connection_errors, 0);
    assert_eq!(test.global_results.requests_per_second, 10);
}

#[test]
fn unreachable_host_counts_only_connection_errors() {
    let mut test = one_endpoint_test(1);
    for _ in 0..7 {
        test.run_cycle(0, 0, &None);
    }
    assert_eq!(test.global_results.total_requests, 0);
    assert_eq!(test.global_results.total_connection_errors, 7);
    assert_eq!(test.users[0].results.total_connection_errors, 7);
    assert_eq!(test.endpoints[0].results.total_connection_errors, 7);
}

#[test]
fn global_total_is_sum_of_user_totals() {
    let mut test = one_endpoint_test(3);
    test.run_cycle(0, 0, &Some((200, 5)));
    test.run_cycle(1, 0, &Some((404, 5)));
    test.run_cycle(1, 0, &Some((200, 2)));
    test.run_cycle(2, 0, &None);
    let sum: u64 = test.users.iter().map(|u| u.results.total_requests).sum();
    assert_eq!(sum, test.global_results.total_requests);
    assert_eq!(test.global_results.total_requests, 3);
    let ep_sum: u64 = test.endpoints.iter().map(|e| e.results.total_requests).sum();
    assert_eq!(ep_sum, test.global_results.total_requests);
}

#[test]
fn spawned_users_are_numbered_in_decimal() {
    let mut test = Test::new(
        12,
        None,
        (1, 3),
        "http://h".to_string(),
        vec![EndPoint::new(Method::GET, "/".to_string(), None)],
        None,
    );
    test.spawn_users();
    assert_eq!(test.users.len(), 12);
    assert_eq!(test.users[0].id, "0");
    assert_eq!(test.users[1].id, "1");
    assert_eq!(test.users[10].id, "10");
    assert_eq!(test.users[11].id, "11");
    for u in test.users.iter() {
        assert_eq!(u.status, Status::CREATED);
        assert_eq!(u.sleep, (1, 3));
    }
}

#[test]
fn elapsed_time_needs_both_timestamps() {
    let mut test = Test::new(
        1,
        None,
        (0, 0),
        "http://h".to_string(),
        vec![EndPoint::new(Method::GET, "/".to_string(), None)],
        None,
    );
    assert_eq!(test.elapsed_time(), None);
    test.start_run(100);
    assert_eq!(test.elapsed_time(), None);
    test.complete_run(350);
    assert_eq!(test.elapsed_time(), Some(250));
}

#[test]
fn per_url_breakdown_follows_each_endpoint() {
    let mut test = Test::new(
        1,
        None,
        (0, 0),
        "http://h".to_string(),
        vec![
            EndPoint::new(Method::GET, "/a".to_string(), None),
            EndPoint::new(Method::GET, "/b".to_string(), None),
        ],
        None,
    );
    test.spawn_users();
    test.start_run(0);
    test.users[0].start();
    test.run_cycle(0, 0, &Some((200, 4)));
    test.run_cycle(0, 1, &Some((500, 4)));
    test.run_cycle(0, 0, &Some((200, 6)));
    let breakdown = test.users[0].get_endpoints();
    assert_eq!(breakdown.len(), 2);
    let a = breakdown.iter().find(|e| e.0 == "/a").unwrap();
    let b = breakdown.iter().find(|e| e.0 == "/b").unwrap();
    assert_eq!(a.1.total_requests, 2);
    assert_eq!(a.1.total_response_time_ms, 10);
    assert_eq!(a.1.average_response_time_ms, 5);
    assert_eq!(b.1.total_requests, 1);
    assert_eq!(b.1.total_failed, 1);
}

use rocust_lib::endpoint::{EndPoint, Method, SerDeserEndpoint};
use rocust_lib::user::{SerDeserUser, User};
use rocust_lib::Status;

fn pairs(items: &[(&str, &str)]) -> Vec<(String, String)> {
    items.iter().map(|(k, v)| (k.to_string(), v.to_string())).collect()
}

#[test]
fn plan_concatenates_host_and_path() {
    let user = User::new("0".to_string(), (0, 0), "http://h:1".to_string(), None);
    let ep = EndPoint::new(Method::GET, "/route".to_string(), None);
    let plan = user.plan_request(&ep);
    assert_eq!(plan.url, "http://h:1/route");
    assert_eq!(plan.method, Method::GET);
    assert!(plan.headers.is_empty());
    assert!(plan.params.is_none());
    assert!(plan.body.is_none());
}

#[test]
fn plan_puts_global_headers_before_endpoint_headers() {
    let user = User::new(
        "0".to_string(),
        (0, 0),
        "http://h".to_string(),
        Some(pairs(&[("accept", "text/plain"), ("x-shared", "global")])),
    );
    let ep = EndPoint::new(
        Method::GET,
        "/".to_string(),
        Some(pairs(&[("x-shared", "endpoint")])),
    );
    let plan = user.plan_request(&ep);
    assert_eq!(
        plan.headers,
        pairs(&[
            ("accept", "text/plain"),
            ("x-shared", "global"),
            ("x-shared", "endpoint"),
        ])
    );
    // under last-wins lookup the endpoint's pair overrides the global one
    let last_shared = plan
        .headers
        .iter()
        .rev()
        .find(|(k, _)| k == "x-shared")
        .unwrap();
    assert_eq!(last_shared.1, "endpoint");
}

#[test]
fn params_ride_along_for_get_only() {
    let user = User::new("0".to_string(), (0, 0), "http://h".to_string(), None);
    let with_params = EndPoint::new(Method::GET, "/q".to_string(), None)
        .with_params(pairs(&[("page", "1")]));
    assert_eq!(
        user.plan_request(&with_params).params,
        Some(pairs(&[("page", "1")]))
    );
    let post = EndPoint::new(Method::POST, "/q".to_string(), None)
        .with_params(pairs(&[("page", "1")]));
    assert!(user.plan_request(&post).params.is_none());
}

#[test]
fn body_rides_along_for_post_and_put_only() {
    let user = User::new("0".to_string(), (0, 0), "http://h".to_string(), None);
    let post = EndPoint::new(Method::POST, "/b".to_string(), None).with_body("data".to_string());
    assert_eq!(user.plan_request(&post).body, Some("data".to_string()));
    let put = EndPoint::new(Method::PUT, "/b".to_string(), None).with_body("data".to_string());
    assert_eq!(user.plan_request(&put).body, Some("data".to_string()));
    let get = EndPoint::new(Method::GET, "/b".to_string(), None).with_body("data".to_string());
    assert!(user.plan_request(&get).body.is_none());
    let delete = EndPoint::new(Method::DELETE, "/b".to_string(), None);
    let plan = user.plan_request(&delete);
    assert_eq!(plan.method, Method::DELETE);
    assert!(plan.body.is_none());
}

#[test]
fn config_shapes_become_live_values() {
    let sd_ep = SerDeserEndpoint {
        method: Method::POST,
        url: "/submit".to_string(),
        headers: None,
        params: None,
        body: Some("payload".to_string()),
    };
    let ep = sd_ep.into_endpoint();
    assert_eq!(ep.method, Method::POST);
    assert_eq!(ep.url, "/submit");
    assert_eq!(ep.body, Some("payload".to_string()));
    assert_eq!(ep.results.total_requests, 0);

    let sd_user = SerDeserUser {
        status: Status::RUNNING,
        id: "alpha".to_string(),
        sleep: (1, 2),
        host: "http://h".to_string(),
        endpoints: Vec::new(),
        global_endpoints: Vec::new(),
        global_headers: None,
    };
    let user = sd_user.into_user();
    assert_eq!(user.id, "alpha");
    assert_eq!(user.sleep, (1, 2));
    // a freshly built client is always CREATED, whatever the wire said
    assert_eq!(user.status, Status::CREATED);
    assert_eq!(user.results.total_requests, 0);
}

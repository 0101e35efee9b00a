use vstd::prelude::*;

use crate::results::Results;

verus! {

/// The HTTP method of a target route.  Query parameters are attached for
/// `GET` requests only, a body for `POST` and `PUT` only.
#[derive(Clone, Copy, PartialEq, Eq, Structural, Debug)]
pub enum Method {
    GET,
    POST,
    PUT,
    DELETE,
}

/// One target route of the test: an immutable request definition plus its own
/// `Results`, aggregated over every virtual client that hits it.
///
/// Header and parameter maps are kept as key/value pair lists, in insertion
/// order; a later pair with the same key overrides an earlier one.
#[derive(Clone, Debug)]
pub struct EndPoint {
    pub method: Method,
    pub url: String,
    pub headers: Option<Vec<(String, String)>>,
    pub params: Option<Vec<(String, String)>>,
    pub body: Option<String>,
    pub results: Results,
}

impl EndPoint {
    pub fn new(method: Method, url: String, headers: Option<Vec<(String, String)>>) -> (r: EndPoint)
        ensures
            r.method == method,
            r.url@ == url@,
            r.headers == headers,
            r.params is None,
            r.body is None,
            r.results == Results::empty(),
    {
        EndPoint { method, url, headers, params: None, body: None, results: Results::new() }
    }

    /// The same route with query parameters attached (meaningful for `GET`).
    pub fn with_params(self, params: Vec<(String, String)>) -> (r: EndPoint)
        ensures
            r == (EndPoint { params: Some(params), ..self }),
    {
        EndPoint { params: Some(params), ..self }
    }

    /// The same route with a request body attached (meaningful for `POST` and
    /// `PUT`).
    pub fn with_body(self, body: String) -> (r: EndPoint)
        ensures
            r == (EndPoint { body: Some(body), ..self }),
    {
        EndPoint { body: Some(body), ..self }
    }

    pub fn get_method(&self) -> (r: Method)
        ensures
            r == self.method,
    {
        self.method
    }

    pub fn get_url(&self) -> (r: &String)
        ensures
            r@ == self.url@,
    {
        &self.url
    }

    pub fn get_results(&self) -> (r: &Results)
        ensures
            r == self.results,
    {
        &self.results
    }

    /// Fold one successful request into this route's counters; the request
    /// definition is untouched.
    pub fn add_response_time(&mut self, response_time: u32)
        requires
            old(self).results.can_record_success(response_time),
        ensures
            *final(self) == (EndPoint {
                results: old(self).results.after_success(response_time),
                ..*old(self)
            }),
    {
        self.results.record_success(response_time);
    }

    /// Fold one failed-status request into this route's counters.
    pub fn add_failed(&mut self)
        requires
            old(self).results.can_record_failed(),
        ensures
            *final(self) == (EndPoint { results: old(self).results.after_failed(), ..*old(self) }),
    {
        self.results.record_failed_status();
    }

    /// Fold one connection error into this route's counters.
    pub fn add_connection_error(&mut self)
        requires
            old(self).results.can_record_connection_error(),
        ensures
            *final(self) == (EndPoint {
                results: old(self).results.after_connection_error(),
                ..*old(self)
            }),
    {
        self.results.record_connection_error();
    }
}

/// The plain configuration shape of one endpoint, as it travels over the
/// control channel; `into_endpoint` turns it into a live `EndPoint` with
/// fresh counters.
#[derive(Debug)]
pub struct SerDeserEndpoint {
    pub method: Method,
    pub url: String,
    pub headers: Option<Vec<(String, String)>>,
    pub params: Option<Vec<(String, String)>>,
    pub body: Option<String>,
}

impl SerDeserEndpoint {
    pub fn into_endpoint(self) -> (r: EndPoint)
        ensures
            r.method == self.method,
            r.url == self.url,
            r.headers == self.headers,
            r.params == self.params,
            r.body == self.body,
            r.results == Results::empty(),
    {
        EndPoint {
            method: self.method,
            url: self.url,
            headers: self.headers,
            params: self.params,
            body: self.body,
            results: Results::new(),
        }
    }
}

} // verus!

//! The launcher configuration: an immutable routing tree paired with the
//! transport settings the surrounding server loop consumes.

use vstd::prelude::*;

use crate::endpoint::Endpoint;

verus! {

/// HTTP protocol settings handed to the transport layer.
#[derive(Debug, Clone, Copy, PartialEq, Eq, Structural)]
pub struct Http {
    /// Whether connections are kept alive between requests.
    pub keep_alive: bool,
}

impl Http {
    /// The default protocol settings: keep-alive on.
    pub fn new() -> (r: Http)
        ensures
            r.keep_alive,
    {
        Http { keep_alive: true }
    }
}

/// TCP listener settings: the addresses to bind.
#[derive(Debug)]
pub struct Tcp {
    pub addrs: Vec<String>,
}

/// Worker settings: how many requests may be in flight at once.
#[derive(Debug, Clone, Copy, PartialEq, Eq, Structural)]
pub struct Worker {
    pub concurrency: usize,
}

impl Worker {
    /// The default worker settings.
    pub fn new() -> (r: Worker)
        ensures
            r.concurrency == 1,
    {
        Worker { concurrency: 1 }
    }
}

/// A service that hands out the same routing tree for every connection: the
/// tree is built once and only ever read.
#[derive(Debug)]
pub struct ConstService {
    pub service: Endpoint,
}

impl ConstService {
    /// The shared routing tree for one more connection.
    pub fn new_service(&self) -> (r: &Endpoint)
        ensures
            r == self.service,
    {
        &self.service
    }
}

/// The launcher of an HTTP application: the service plus its transport
/// configuration. The surrounding server loop deconstructs it and drives the
/// endpoint once per request.
#[derive(Debug)]
pub struct Application {
    pub new_service: ConstService,
    pub http: Http,
    pub tcp: Tcp,
    pub worker: Worker,
}

impl Application {
    /// Creates a launcher around the given service, with default protocol and
    /// worker settings and no addresses yet.
    pub fn new(new_service: ConstService) -> (r: Application)
        ensures
            r.new_service == new_service,
            r.http.keep_alive,
            r.tcp.addrs@.len() == 0,
            r.worker.concurrency == 1,
    {
        Application { new_service, http: Http::new(), tcp: Tcp { addrs: Vec::new() }, worker: Worker::new() }
    }

    /// Creates a launcher that serves the given endpoint.
    pub fn from_endpoint(endpoint: Endpoint) -> (r: Application)
        ensures
            r.new_service.service == endpoint,
            r.http.keep_alive,
            r.tcp.addrs@.len() == 0,
            r.worker.concurrency == 1,
    {
        Application::new(ConstService { service: endpoint })
    }

    /// A mutable reference to the service.
    pub fn new_service(&mut self) -> (r: &mut ConstService)
        ensures
            *r == old(self).new_service,
            *final (self) == (Application { new_service: *final (r), ..*old(self) }),
    {
        &mut self.new_service
    }

    /// A mutable reference to the HTTP configuration.
    pub fn http(&mut self) -> (r: &mut Http)
        ensures
            *r == old(self).http,
            *final (self) == (Application { http: *final (r), ..*old(self) }),
    {
        &mut self.http
    }

    /// A mutable reference to the TCP configuration.
    pub fn tcp(&mut self) -> (r: &mut Tcp)
        ensures
            *r == old(self).tcp,
            *final (self) == (Application { tcp: *final (r), ..*old(self) }),
    {
        &mut self.tcp
    }

    /// A mutable reference to the worker configuration.
    pub fn worker(&mut self) -> (r: &mut Worker)
        ensures
            *r == old(self).worker,
            *final (self) == (Application { worker: *final (r), ..*old(self) }),
    {
        &mut self.worker
    }

    /// Takes the launcher apart into its service and transport settings; the
    /// surrounding server loop runs them.
    pub fn deconstruct(self) -> (r: (ConstService, Http, Tcp, Worker))
        ensures
            r.0 == self.new_service,
            r.1 == self.http,
            r.2 == self.tcp,
            r.3 == self.worker,
    {
        (self.new_service, self.http, self.tcp, self.worker)
    }
}

} // verus!

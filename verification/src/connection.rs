//! The connection to OBS: its parameters and the client the program holds.
use vstd::prelude::*;
use crate::names::{owned, CONNECT_FAILED, NOT_CONNECTED};
use crate::protocol::ObsOperation;
use crate::task::{start, starts_to, Step};

verus! {

/// Where and how to connect to obs-websocket.
#[derive(Debug, PartialEq, Eq)]
pub struct ObsConnection {
    pub host: String,
    pub port: u16,
    pub password: String,
}

impl ObsConnection {
    pub fn new(host: String, port: u16, password: String) -> (res: Self)
        ensures
            res.host == host,
            res.port == port,
            res.password == password,
    {
        ObsConnection { host, port, password }
    }

    /// The password handed to the connection attempt: always given.
    pub fn password_option(&self) -> (res: Option<String>)
        ensures
            res matches Some(p) && p@ == self.password@,
    {
        Some(self.password.clone())
    }
}

/// The client held after a connection attempt with result `attempt`, when
/// `client` was held before: a new client replaces the old one, a failure keeps it.
pub open spec fn client_after_attempt<C, E>(client: Option<C>, attempt: Result<C, E>) -> Option<C> {
    match attempt {
        Ok(new_client) => Some(new_client),
        Err(_) => client,
    }
}

/// The client held after the connection attempts `attempts`, in order, when
/// `client` was held before them.
pub open spec fn client_after_attempts<C, E>(client: Option<C>, attempts: Seq<Result<C, E>>) -> Option<C>
    decreases attempts.len(),
{
    if attempts.len() == 0 {
        client
    } else {
        client_after_attempts(client_after_attempt(client, attempts[0]), attempts.drop_first())
    }
}

/// The OBS controller: the client of the last successful connection, if any.
/// `C` is the type of the client.
pub struct ObsClass<C> {
    pub client: Option<C>,
}

impl<C> ObsClass<C> {
    /// A controller that is not connected.
    pub fn new() -> (res: Self)
        ensures
            res.client is None,
    {
        ObsClass { client: None }
    }

    /// Whether the controller holds a client.
    pub fn is_connected(&self) -> (res: bool)
        ensures
            res == self.client is Some,
    {
        self.client.is_some()
    }

    /// The client, or the "not connected" error.
    pub fn get_client(&self) -> (res: Result<&C, String>)
        ensures
            self.client is Some ==> (res matches Ok(c) && *c == self.client->0),
            self.client is None ==> (res matches Err(e) && e@ == NOT_CONNECTED@),
    {
        match &self.client {
            Some(client) => Ok(client),
            None => Err(owned(NOT_CONNECTED)),
        }
    }

    /// Takes the result of a connection attempt: a new client replaces the old one
    /// and the answer is `Ok(true)`; a failure leaves the controller as it was.
    pub fn connect_finished<E>(&mut self, attempt: Result<C, E>) -> (res: Result<bool, String>)
        ensures
            final(self).client == client_after_attempt(old(self).client, attempt),
            attempt is Ok ==> final(self).client == Some(attempt->Ok_0) && res == Ok::<bool, String>(true),
            attempt is Err ==> final(self).client == old(self).client && (res matches Err(e) && e@
                == CONNECT_FAILED@),
    {
        match attempt {
            Ok(client) => {
                self.client = Some(client);
                Ok(true)
            },
            Err(_) => Err(owned(CONNECT_FAILED)),
        }
    }

    /// The first step of `op` on this controller.
    pub fn begin(&self, op: ObsOperation) -> (step: Step)
        ensures
            starts_to(op, self.client is Some, step),
    {
        start(op, self.client.is_some())
    }
}

} // verus!

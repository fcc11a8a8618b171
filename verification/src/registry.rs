//! The service state registry: for each service, whether it runs and which
//! process of the operating system owns it.
//!
//! The registry holds memory only and performs no I/O. Callers that share
//! one registry between threads put it behind a lock; each operation here
//! is one short critical section.

use crate::service::ServiceName;
use vstd::prelude::*;

verus! {

/// What is known of one service.
#[derive(Clone, Copy, Debug, PartialEq, Eq)]
pub struct ServiceRecord {
    /// Whether the service runs.
    pub running: bool,
    /// The identifier of the process that owns the service.
    pub process_handle: Option<u32>,
}

impl ServiceRecord {
    /// A process handle is there if and only if the service runs.
    pub open spec fn consistent(self) -> bool {
        self.running <==> self.process_handle is Some
    }

    /// The record of a service that does not run.
    pub open spec fn spec_stopped() -> ServiceRecord {
        ServiceRecord { running: false, process_handle: None }
    }

    /// The record of a service that does not run.
    #[verifier::when_used_as_spec(spec_stopped)]
    pub fn stopped() -> (record: ServiceRecord)
        ensures
            record == Self::spec_stopped(),
    {
        ServiceRecord { running: false, process_handle: None }
    }

    /// The record of a service that runs as the process `pid`.
    pub open spec fn spec_started(pid: u32) -> ServiceRecord {
        ServiceRecord { running: true, process_handle: Some(pid) }
    }

    /// The record of a service that runs as the process `pid`.
    #[verifier::when_used_as_spec(spec_started)]
    pub fn started(pid: u32) -> (record: ServiceRecord)
        ensures
            record == Self::spec_started(pid),
    {
        ServiceRecord { running: true, process_handle: Some(pid) }
    }
}

/// What a registry holds, as a mapping from each service to its record.
pub type RegistryState = Map<ServiceName, ServiceRecord>;

/// A mapping is the state of a registry if it has a record for every
/// service and every record is consistent.
pub open spec fn valid_state(state: RegistryState) -> bool {
    forall|name: ServiceName|
        #![trigger state[name]]
        #![trigger state.dom().contains(name)]
        state.dom().contains(name) && state[name].consistent()
}

/// The state in which no service runs.
pub open spec fn initial_state() -> RegistryState {
    Map::total(|name: ServiceName| ServiceRecord::spec_stopped())
}

/// The registry of the services' states.
pub struct ServiceStateRegistry {
    database: ServiceRecord,
    web_server: ServiceRecord,
}

impl View for ServiceStateRegistry {
    type V = RegistryState;

    closed spec fn view(&self) -> RegistryState {
        Map::total(
            |name: ServiceName|
                match name {
                    ServiceName::Database => self.database,
                    ServiceName::WebServer => self.web_server,
                },
        )
    }
}

impl ServiceStateRegistry {
    #[verifier::type_invariant]
    closed spec fn consistent(&self) -> bool {
        self.database.consistent() && self.web_server.consistent()
    }

    /// A registry in which no service runs.
    pub fn new() -> (registry: ServiceStateRegistry)
        ensures
            registry@ == initial_state(),
            valid_state(registry@),
    {
        let registry = ServiceStateRegistry {
            database: ServiceRecord::stopped(),
            web_server: ServiceRecord::stopped(),
        };
        assert(registry@ =~= initial_state());
        registry
    }

    /// The record of `name`.
    pub fn get(&self, name: ServiceName) -> (record: ServiceRecord)
        ensures
            record == self@[name],
            record.consistent(),
            valid_state(self@),
    {
        proof {
            use_type_invariant(self);
        }
        match name {
            ServiceName::Database => self.database,
            ServiceName::WebServer => self.web_server,
        }
    }

    /// Writes the record of `name`, where the two values are consistent: a
    /// process handle with a running service, none with a stopped one.
    /// Other values are refused, and the registry stays as it was.
    pub fn set(&mut self, name: ServiceName, running: bool, process_handle: Option<u32>) -> (accepted:
        bool)
        ensures
            accepted == (ServiceRecord { running, process_handle }).consistent(),
            accepted ==> final(self)@ == old(self)@.insert(
                name,
                ServiceRecord { running, process_handle },
            ),
            !accepted ==> final(self)@ == old(self)@,
            valid_state(final(self)@),
    {
        proof {
            use_type_invariant(&*self);
        }
        if running != process_handle.is_some() {
            return false;
        }
        let record = ServiceRecord { running, process_handle };
        match name {
            ServiceName::Database => {
                self.database = record;
            },
            ServiceName::WebServer => {
                self.web_server = record;
            },
        }
        assert(self@ =~= old(self)@.insert(name, record));
        true
    }

    /// Resets the record of `name` to not running.
    pub fn clear(&mut self, name: ServiceName)
        ensures
            final(self)@ == old(self)@.insert(name, ServiceRecord::spec_stopped()),
            valid_state(final(self)@),
    {
        proof {
            use_type_invariant(&*self);
        }
        match name {
            ServiceName::Database => {
                self.database = ServiceRecord::stopped();
            },
            ServiceName::WebServer => {
                self.web_server = ServiceRecord::stopped();
            },
        }
        assert(self@ =~= old(self)@.insert(name, ServiceRecord::spec_stopped()));
    }
}

} // verus!

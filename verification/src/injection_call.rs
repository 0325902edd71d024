//! The service record of the invoker that looks its service up through a
//! cache in front of the document store; it also names the subject at which
//! the service is called.

use vstd::prelude::*;
use crate::registry::ServiceRecord;

verus! {

/// A service that a function may call, by its id, with its NATS subject.
#[allow(non_snake_case)]
#[derive(Debug, Clone)]
pub struct Service {
    pub id: String,
    pub ServiceName: String,
    pub ServiceAddress: String,
    pub ServiceTopic: String,
}

impl ServiceRecord for Service {
    open spec fn record_id(&self) -> String {
        self.id
    }

    fn id_string(&self) -> (id: String) {
        self.id.clone()
    }

    fn duplicate(&self) -> (copy: Self) {
        Service {
            id: self.id.clone(),
            ServiceName: self.ServiceName.clone(),
            ServiceAddress: self.ServiceAddress.clone(),
            ServiceTopic: self.ServiceTopic.clone(),
        }
    }
}

} // verus!

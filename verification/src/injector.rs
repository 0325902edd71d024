//! The service record of the invokers that look their service up in a
//! document store (without a cache) or take it from a fixed catalog.

use vstd::prelude::*;
use crate::registry::ServiceRecord;

verus! {

/// A service that a function may call, by its id.
#[allow(non_snake_case)]
#[derive(Debug, Clone)]
pub struct Service {
    pub id: String,
    pub ServiceName: String,
    pub ServiceAddress: String,
}

impl ServiceRecord for Service {
    open spec fn record_id(&self) -> String {
        self.id
    }

    fn id_string(&self) -> (id: String) {
        self.id.clone()
    }

    fn duplicate(&self) -> (copy: Self) {
        Service {
            id: self.id.clone(),
            ServiceName: self.ServiceName.clone(),
            ServiceAddress: self.ServiceAddress.clone(),
        }
    }
}

} // verus!

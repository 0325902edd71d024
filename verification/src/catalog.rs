//! The fixed catalog of services of the invoker that has its service injected
//! when it starts.

use vstd::prelude::*;
use crate::injector::Service;

verus! {

/// The id, name and address that the catalog gives for a service id: the
/// `hello`, `acl` and `log` functions, and the default function for any
/// other id.
pub open spec fn catalog_entry(service_id: Seq<char>) -> (Seq<char>, Seq<char>, Seq<char>) {
    if service_id == "hello"@ {
        ("hello"@, "hello function"@, "http://192.168.17.118:8081/function/hello-fn"@)
    } else if service_id == "acl"@ {
        ("acl"@, "access control function"@, "http://192.168.17.118:8081/function/acl-fn"@)
    } else if service_id == "log"@ {
        ("log"@, "logger"@, "http://192.168.17.118:8081/function/log-fn"@)
    } else {
        ("default"@, "default function"@, "http://192.168.17.118:8081/function/default-fn"@)
    }
}

fn service(id: &str, name: &str, address: &str) -> (s: Service)
    ensures
        s.id@ == id@,
        s.ServiceName@ == name@,
        s.ServiceAddress@ == address@,
{
    Service { id: id.to_owned(), ServiceName: name.to_owned(), ServiceAddress: address.to_owned() }
}

/// The service that the catalog holds for `service_id`.
pub fn catalog_service(service_id: &str) -> (s: Service)
    ensures
        (s.id@, s.ServiceName@, s.ServiceAddress@) == catalog_entry(service_id@),
        service_id@ == "hello"@ || service_id@ == "acl"@ || service_id@ == "log"@ ==> s.id@
            == service_id@,
        service_id@ != "hello"@ && service_id@ != "acl"@ && service_id@ != "log"@ ==> s.id@
            == "default"@ && s.ServiceName@ == "default function"@ && s.ServiceAddress@
            == "http://192.168.17.118:8081/function/default-fn"@,
{
    let id = service_id.to_owned();
    if id == "hello".to_owned() {
        service("hello", "hello function", "http://192.168.17.118:8081/function/hello-fn")
    } else if id == "acl".to_owned() {
        service("acl", "access control function", "http://192.168.17.118:8081/function/acl-fn")
    } else if id == "log".to_owned() {
        service("log", "logger", "http://192.168.17.118:8081/function/log-fn")
    } else {
        service("default", "default function", "http://192.168.17.118:8081/function/default-fn")
    }
}


/// Only the exact ids `hello`, `acl` and `log` select their own services,
/// each under its own id; every other id, however close to one of them,
/// selects the default function.
pub proof fn only_exact_ids_select_their_service(service_id: Seq<char>)
    ensures
        service_id == "hello"@ || service_id == "acl"@ || service_id == "log"@ ==> catalog_entry(
            service_id,
        ).0 == service_id,
        service_id != "hello"@ && service_id != "acl"@ && service_id != "log"@ ==> catalog_entry(
            service_id,
        ) == ("default"@, "default function"@, "http://192.168.17.118:8081/function/default-fn"@),
{
}

} // verus!

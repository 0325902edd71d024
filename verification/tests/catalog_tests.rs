use invoker::catalog::catalog_service;

#[test]
fn catalog_knows_its_services() {
    let s = catalog_service("hello");
    assert_eq!((s.id.as_str(), s.ServiceName.as_str()), ("hello", "hello function"));
    assert_eq!(s.ServiceAddress, "http://192.168.17.118:8081/function/hello-fn");
    let s = catalog_service("acl");
    assert_eq!((s.id.as_str(), s.ServiceName.as_str()), ("acl", "access control function"));
    assert_eq!(s.ServiceAddress, "http://192.168.17.118:8081/function/acl-fn");
    let s = catalog_service("log");
    assert_eq!((s.id.as_str(), s.ServiceName.as_str()), ("log", "logger"));
    assert_eq!(s.ServiceAddress, "http://192.168.17.118:8081/function/log-fn");
}

#[test]
fn unknown_ids_get_the_default_service() {
    for id in ["", "Hello", "other"] {
        let s = catalog_service(id);
        assert_eq!((s.id.as_str(), s.ServiceName.as_str()), ("default", "default function"));
        assert_eq!(s.ServiceAddress, "http://192.168.17.118:8081/function/default-fn");
    }
}

use std::collections::HashMap;

use invoker::injection_call::Service as TopicService;
use invoker::injector::Service;
use invoker::registry::{
    RegistryAction, RegistryEvent, RegistryOutcome, RegistryRequest, RegistrySession, ServiceRecord,
};

fn svc(id: &str, address: &str) -> Service {
    Service { id: id.to_string(), ServiceName: format!("{id} function"), ServiceAddress: address.to_string() }
}

fn same(a: &Service, b: &Service) -> bool {
    a.id == b.id && a.ServiceName == b.ServiceName && a.ServiceAddress == b.ServiceAddress
}

#[derive(Default)]
struct Backing {
    store: HashMap<String, Vec<Service>>,
    cache: HashMap<String, Service>,
    store_calls: usize,
    cache_calls: usize,
}

impl Backing {
    fn perform(&mut self, action: RegistryAction<Service>) -> RegistryEvent<Service> {
        match action {
            RegistryAction::CacheGet(id) => {
                self.cache_calls += 1;
                match self.cache.get(&id) {
                    Some(s) => RegistryEvent::CacheHit(s.duplicate()),
                    None => RegistryEvent::CacheMiss,
                }
            }
            RegistryAction::CachePut(id, s) => {
                self.cache_calls += 1;
                self.cache.insert(id, s);
                RegistryEvent::CacheWritten
            }
            RegistryAction::CacheInvalidate(id) => {
                self.cache_calls += 1;
                self.cache.remove(&id);
                RegistryEvent::CacheWritten
            }
            RegistryAction::StoreInsert(s) => {
                self.store_calls += 1;
                self.store.entry(s.id.clone()).or_default().push(s);
                RegistryEvent::StoreDone
            }
            RegistryAction::StoreFind(id) => {
                self.store_calls += 1;
                match self.store.get(&id).and_then(|records| records.first()) {
                    Some(s) => RegistryEvent::StoreFound(s.duplicate()),
                    None => RegistryEvent::StoreMissing,
                }
            }
            RegistryAction::StoreUpdate(id, s) => {
                self.store_calls += 1;
                let records = self.store.entry(id.clone()).or_default();
                if !records.is_empty() {
                    if s.id == id {
                        records[0] = s;
                    } else {
                        records.remove(0);
                        self.store.entry(s.id.clone()).or_default().push(s);
                    }
                }
                RegistryEvent::StoreDone
            }
            RegistryAction::StoreDelete(id) => {
                self.store_calls += 1;
                if let Some(records) = self.store.get_mut(&id) {
                    if !records.is_empty() {
                        records.remove(0);
                    }
                }
                RegistryEvent::StoreDone
            }
            RegistryAction::Finish(_) => unreachable!(),
        }
    }

    fn serve(&mut self, request: RegistryRequest<Service>, cached: bool) -> RegistryOutcome<Service> {
        let mut session = RegistrySession::new(request, cached);
        let mut event = RegistryEvent::Begin;
        loop {
            match session.step(event) {
                RegistryAction::Finish(outcome) => return outcome,
                action => event = self.perform(action),
            }
        }
    }
}

fn found(outcome: RegistryOutcome<Service>) -> Option<Service> {
    match outcome {
        RegistryOutcome::Found(s) => Some(s),
        RegistryOutcome::NotFound => None,
        _ => panic!("not a lookup answer"),
    }
}

fn written(outcome: &RegistryOutcome<Service>) -> bool {
    matches!(outcome, RegistryOutcome::Written)
}

#[test]
fn inserted_record_is_found() {
    for cached in [false, true] {
        let mut b = Backing::default();
        let s = svc("acl", "http://acl");
        assert!(written(&b.serve(RegistryRequest::Insert(s.duplicate()), cached)));
        let got = found(b.serve(RegistryRequest::Get("acl".to_string()), cached)).unwrap();
        assert!(same(&got, &s));
    }
}

#[test]
fn cached_lookup_after_insert_skips_the_store() {
    let mut b = Backing::default();
    b.serve(RegistryRequest::Insert(svc("log", "http://log")), true);
    let calls = b.store_calls;
    let got = found(b.serve(RegistryRequest::Get("log".to_string()), true)).unwrap();
    assert_eq!(got.ServiceAddress, "http://log");
    assert_eq!(b.store_calls, calls);
}

#[test]
fn cache_miss_fills_the_cache_under_the_requested_id() {
    let mut b = Backing::default();
    b.store.insert("acl".to_string(), vec![svc("acl", "http://acl")]);
    let got = found(b.serve(RegistryRequest::Get("acl".to_string()), true)).unwrap();
    assert_eq!(got.id, "acl");
    assert!(same(b.cache.get("acl").unwrap(), &got));
}

#[test]
fn updated_record_is_found() {
    for cached in [false, true] {
        let mut b = Backing::default();
        b.serve(RegistryRequest::Insert(svc("acl", "http://old")), cached);
        b.serve(RegistryRequest::Get("acl".to_string()), cached);
        let new = svc("acl", "http://new");
        assert!(written(&b.serve(RegistryRequest::Update("acl".to_string(), new.duplicate()), cached)));
        let got = found(b.serve(RegistryRequest::Get("acl".to_string()), cached)).unwrap();
        assert!(same(&got, &new));
    }
}

#[test]
fn deleted_record_is_gone() {
    for cached in [false, true] {
        let mut b = Backing::default();
        b.serve(RegistryRequest::Insert(svc("acl", "http://acl")), cached);
        b.serve(RegistryRequest::Get("acl".to_string()), cached);
        assert!(written(&b.serve(RegistryRequest::Delete("acl".to_string()), cached)));
        assert!(found(b.serve(RegistryRequest::Get("acl".to_string()), cached)).is_none());
    }
}

#[test]
fn cache_is_transparent_while_coherent() {
    let mut b = Backing::default();
    b.store.insert("a".to_string(), vec![svc("a", "http://a")]);
    b.store.insert("b".to_string(), vec![svc("b", "http://b")]);
    b.cache.insert("a".to_string(), svc("a", "http://a"));
    for id in ["a", "b", "c"] {
        let with = found(b.serve(RegistryRequest::Get(id.to_string()), true));
        let without = found(b.serve(RegistryRequest::Get(id.to_string()), false));
        assert_eq!(with.map(|s| s.ServiceAddress), without.map(|s| s.ServiceAddress));
    }
}

#[test]
fn update_of_a_missing_id_is_cached_anyway() {
    let mut b = Backing::default();
    let outcome = b.serve(RegistryRequest::Update("ghost".to_string(), svc("ghost", "http://g")), true);
    assert!(written(&outcome));
    assert!(b.store.values().all(|records| records.is_empty()));
    assert!(b.cache.contains_key("ghost"));
}

#[test]
fn refused_write_is_answered_without_the_cache() {
    for request in [
        RegistryRequest::Insert(svc("a", "x")),
        RegistryRequest::Update("a".to_string(), svc("a", "x")),
        RegistryRequest::Delete("a".to_string()),
    ] {
        let mut s = RegistrySession::new(request, true);
        let first = s.step(RegistryEvent::Begin);
        assert!(!matches!(first, RegistryAction::CacheGet(_) | RegistryAction::Finish(_)));
        match s.step(RegistryEvent::StoreFailed) {
            RegistryAction::Finish(RegistryOutcome::WriteFailed) => {}
            _ => panic!("refused write not answered at once"),
        }
    }
}

#[test]
fn failed_lookup_answers_nothing_found() {
    let mut s = RegistrySession::new(RegistryRequest::<Service>::Get("a".to_string()), false);
    assert!(matches!(s.step(RegistryEvent::Begin), RegistryAction::StoreFind(ref id) if id == "a"));
    assert!(matches!(s.step(RegistryEvent::StoreFailed), RegistryAction::Finish(RegistryOutcome::NotFound)));
}

#[test]
fn cached_lookup_asks_the_cache_first() {
    let mut s = RegistrySession::new(RegistryRequest::<Service>::Get("a".to_string()), true);
    assert!(matches!(s.step(RegistryEvent::Begin), RegistryAction::CacheGet(ref id) if id == "a"));
    match s.step(RegistryEvent::CacheHit(svc("a", "http://a"))) {
        RegistryAction::Finish(RegistryOutcome::Found(found)) => assert_eq!(found.ServiceAddress, "http://a"),
        _ => panic!("hit not answered"),
    }
}

#[test]
fn out_of_order_events_end_the_session() {
    let mut s = RegistrySession::new(RegistryRequest::<Service>::Get("a".to_string()), true);
    assert!(matches!(s.step(RegistryEvent::StoreDone), RegistryAction::Finish(RegistryOutcome::OutOfOrder)));
    assert!(matches!(s.step(RegistryEvent::Begin), RegistryAction::Finish(RegistryOutcome::OutOfOrder)));
}

#[test]
fn records_copy_and_name_their_ids() {
    let s = TopicService {
        id: "acl".to_string(),
        ServiceName: "access control".to_string(),
        ServiceAddress: "http://acl".to_string(),
        ServiceTopic: "acl.topic".to_string(),
    };
    let c = s.duplicate();
    assert_eq!(c.id_string(), "acl");
    assert_eq!(c.ServiceTopic, "acl.topic");
    assert_eq!(c.ServiceName, s.ServiceName);
    assert_eq!(c.ServiceAddress, s.ServiceAddress);
}

#[test]
fn evicted_entry_is_read_from_the_store() {
    let mut b = Backing::default();
    b.serve(RegistryRequest::Insert(svc("acl", "http://acl")), true);
    b.cache.remove("acl");
    let calls = b.store_calls;
    let got = found(b.serve(RegistryRequest::Get("acl".to_string()), true)).unwrap();
    assert_eq!(got.ServiceAddress, "http://acl");
    assert_eq!(b.store_calls, calls + 1);
    assert!(b.cache.contains_key("acl"));
}

#[test]
fn delete_uncovers_a_second_record_with_the_id() {
    for cached in [false, true] {
        let mut b = Backing::default();
        b.serve(RegistryRequest::Insert(svc("acl", "http://first")), cached);
        b.serve(RegistryRequest::Insert(svc("acl", "http://second")), cached);
        assert!(written(&b.serve(RegistryRequest::Delete("acl".to_string()), cached)));
        let got = found(b.serve(RegistryRequest::Get("acl".to_string()), cached)).unwrap();
        assert_eq!(got.ServiceAddress, "http://second");
    }
}

#[test]
fn second_insert_of_an_id_is_not_what_the_store_finds() {
    let mut b = Backing::default();
    b.serve(RegistryRequest::Insert(svc("acl", "http://first")), false);
    b.serve(RegistryRequest::Insert(svc("acl", "http://second")), false);
    let got = found(b.serve(RegistryRequest::Get("acl".to_string()), false)).unwrap();
    assert_eq!(got.ServiceAddress, "http://first");
}

//! Verified decision logic of a NATS-based function invoker: text handling for
//! messages and configuration, the load generator's rate schedule, the HTTP
//! trigger's route table, the invokers' command and output rules, and the
//! protocol that keeps a service registry's cache in step with its store.

pub mod text;
pub mod invoker;
pub mod stress;
pub mod nats_pool;
pub mod routes;
pub mod registry;
pub mod registry_model;
pub mod injector;
pub mod injection_call;
pub mod catalog;

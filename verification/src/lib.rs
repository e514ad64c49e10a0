//! Configuration resolution for the pod sandboxes and containers of a
//! container runtime, and what the tools of a containerd tool server
//! compute around it.
//!
//! A description of a pod sandbox or of a container is a JSON document that
//! gives some of the fields of a configuration. [`pod::parse_pod_config`]
//! and [`container::parse_container_config`] resolve it into a complete
//! configuration: every field that the description leaves out, or gives in
//! another shape than the field has, keeps its default value, and
//! identifiers that are needed are freshly generated. Resolution never
//! fails.
//!
//! The contracts are stated over the mathematical values of documents and
//! configurations ([`json::JsonV`], [`pod::PodSandboxConfigV`],
//! [`container::ContainerConfigV`]).

pub mod chat;
pub mod container;
pub mod ctr;
pub mod extract;
pub mod ident;
pub mod json;
pub mod json_text;
pub mod merge;
pub mod pod;
pub mod record;
pub mod request;
pub mod service;
pub mod string_map;
pub mod text;




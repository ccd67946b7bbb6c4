//! Decisions of the control plane that wakes, runs and puts to sleep one
//! workload per instance: what it renders for Kubernetes, what it accepts from
//! its environment and callers, and what it does next with a materialization.

pub mod text;
pub mod text_laws;
pub mod string_map;
pub mod json;
pub mod yaml;
pub mod duration;
pub mod gauges;
pub mod ids;
pub mod instance;
pub mod kubernetes_name;
pub mod api;
pub mod auth;
pub mod backend;
pub mod certificate;
pub mod cluster_walk;
pub mod config;
pub mod kube_materializer;
pub mod kube_laws;
pub mod listeners;
pub mod manifest;
pub mod materialization;
pub mod materializer;
pub mod net;
pub mod net_laws;
pub mod postgres;
pub mod projection;
pub mod reconciler;
pub mod route;
pub mod route_laws;
pub mod runtime;
pub mod runtime_work;
pub mod settings_laws;
pub mod store;
pub mod target;
pub mod walk_laws;
pub mod workload;

//! A chat backend's coordinator: credentials, chat membership rules, live
//! room subscriptions and message fan-out, written as verified decision
//! logic that a transport and a relational store are plugged into.

pub mod auth;
pub mod chat;
pub mod coherence;
pub mod coordinator;
pub mod flow;
pub mod http;
pub mod laws;
pub mod middlewares;
pub mod model;
pub mod notice;
pub mod registry;
pub mod sockets;
pub mod store;
pub mod text;
pub mod user;

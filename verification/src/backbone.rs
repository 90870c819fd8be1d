//! The Backbone interface, which links peers over TCP: a server that accepts many of
//! them, and a client that keeps its link up.
pub mod client;
pub mod config;
pub mod flap;
pub mod server;

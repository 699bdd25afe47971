//! Verified core of the Else game model: identities, descriptors, areas, routes and their builders,
//! together with the text-input parsing of the web client.
pub mod error;
pub mod identity;
pub mod modeling;
pub mod descriptor;
pub mod location;
pub mod entity;
pub mod interface;
pub mod cortex;
pub mod character;
pub mod item;
pub mod thing;
pub mod route;
pub mod area;
pub mod universe;
pub mod session;
pub mod timeframe;
pub mod action;
pub mod stimulus;
pub mod message;
pub mod network;
pub mod behavior;
pub mod text;
pub mod client;
pub mod server;

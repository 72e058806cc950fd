//! Verified core of the YouBike band companion plugin.
pub mod text;
pub mod json;
pub mod state;
pub mod element;
pub mod ui;
pub mod stations;
pub mod fetchbridge;
pub mod interconnect;

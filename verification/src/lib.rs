//! Timed character actions for a tick-driven simulation, with their results
//! proved.
//!
//! The centre is the combo-melee action of `combo_melee`: a state machine
//! that is advanced once per tick and answers with the next state and the
//! requests for a deferred mutation sink. `faults` guards its entry, `sink`
//! applies what it requests, and `theorems` states what holds of both on
//! every input. `workshop` lays out a building block by block, and `idle`
//! names the pose of an entity at rest.

pub mod combo_melee;
pub mod faults;
pub mod idle;
pub mod requests;
pub mod sink;
pub mod stage;
pub mod theorems;
pub mod time;
pub mod workshop;

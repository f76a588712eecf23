//! Controller logic for a serial status display: the wire format of the
//! display's commands, the colour rule for percentages, the reading of `df`
//! output, and the sequence of each display mode as a state machine.

pub mod command;
pub mod config;
pub mod modes;
pub mod text;
pub mod util;

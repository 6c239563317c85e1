//! Control of Extron switchers and scalers attached over serial links.
//!
//! The library holds the logic of the controller: the serial protocol's
//! framing and response interpretation, the device registry, the command loop
//! that serializes every hardware operation, the adapter between remote calls
//! and commands, and the shutdown signal. The program around it performs the
//! serial and network I/O and feeds the results back in.

pub mod device;
pub mod registry;
pub mod protocol;
pub mod command_loop;
pub mod gateway;
pub mod shutdown;

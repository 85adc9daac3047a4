//! A driver for ILI9341-class TFT panel controllers.
//!
//! The driver plans the exact bus traffic of each protocol operation
//! (line transitions, byte writes, duplex transfers and settle delays) as a
//! sequence of [`bus::BusOp`] values. A transport, blocking or asynchronous,
//! performs these operations one by one through an [`session::Exchange`],
//! which stops at the first fault.

pub mod bus;
pub mod colour;
pub mod driver;
pub mod init;
pub mod session;
pub mod window;

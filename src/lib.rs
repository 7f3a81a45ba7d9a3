//! Driver model for the MCAN CAN/CAN-FD controller: Message RAM layout,
//! region accessors, interrupt ownership and the configuration state machine.
pub mod bus;
pub mod config;
pub mod filter;
pub mod id;
pub mod interrupt;
pub mod message;
pub mod messageram;
pub mod poll;
pub mod reg;
pub mod rx_dedicated_buffers;
pub mod rx_fifo;
pub mod tx_buffers;
pub mod tx_event_fifo;

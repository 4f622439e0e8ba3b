//! Control plane of a battery-powered mainboard: the power controller, the
//! ADC sampler, the digital pin agents, the UART batching, the WebSocket
//! command handling and the shutdown sequence, as verified state machines and
//! pure functions. The tasks that await hardware and sockets drive them.

pub mod adc;
pub mod channel;
pub mod charger;
pub mod digital_io;
pub mod error;
pub mod expander;
pub mod i2c;
pub mod power;
pub mod power_task;
pub mod server;
pub mod shutdown;
pub mod uart;

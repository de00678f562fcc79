//! A simulated network port: packet batches sent and received through its
//! queues are counted, and the port reports those counts.

pub mod sim_port;

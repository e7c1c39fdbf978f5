pub mod bus;
pub mod cpu;
pub mod devices;
pub mod fdc;
pub mod machine;
pub mod prim;
pub mod queue;

//! Physical netlists of the FPGA interchange format.
//!
//! Names in a physical netlist are stored once, in a string table, and every
//! named item refers to them by index. This crate holds the netlist model,
//! the references into the string table, and the conversion of decoded
//! records into that model.

pub mod archive;
pub mod framing;
pub mod gzip_format;
pub mod netlist;
pub mod records;
pub mod string_table;
pub mod wire;

# fpga_netlist

Reading physical netlists of the FPGA interchange format, with the library
verified by Verus.

- `src/string_table.rs`: references into a netlist's string list, with reads,
  writes, and the laws that relate them.
- `src/records.rs`: the decoded records of a netlist message, as plain values.
- `src/netlist.rs`: the netlist model and its construction from records.
- `src/archive.rs`: from the bytes of a netlist file (gzip, then Cap'n Proto
  framing) to a message, through `flate2` and `capnp`.
- `app/main.rs`: the command-line reader (file I/O and reporting).

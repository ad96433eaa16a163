# basic_cli

The host side of a command-line platform for Roc programs: files,
directories, the environment, standard streams, commands and spawned
children, TCP streams and connection pools, HTTP, SQLite, locales and random
seeds.

The crate is written in Verus. `src/` is the verified library: its error
mappings, result shapes, buffering state machines, pool and process-table
decisions carry `requires`/`ensures` contracts proved by Verus (where a value
comes from the machine, such as a random seed or the system's locale, the
contract says only what holds of every outcome, and the function that takes
that value as an argument says the rest), together
with laws that span several calls (for example, that a delimited TCP read
gives the same answer however the stream's bytes are split into buffer
fills, and that a pool never holds more connections than its bound).

`app/` is ordinary Rust around it: the operating-system calls (sockets,
pipes, processes, the SQLite C interface, the HTTP client, the terminal).
Each of those calls hands what it got to the library, which decides what it
means.

`tests/` runs the library on concrete values.

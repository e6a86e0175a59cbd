# uefi

Data types and protocol logic of the Unified Extensible Firmware Interface,
written in Verus: each function states in its contract what it computes,
and Verus proves it.

## Layout

- `src/` — the verified library.
  - `data_types/` — UCS-2 and Latin-1 characters, null-terminated strings
    (`CStr8`, `CStr16`, `CString16`), GUIDs and their canonical text,
    little-endian byte fields, unaligned slices.
  - `result/` — status codes, completions with warnings, errors.
  - `ucs2/` — UTF-8 to UCS-2 encoding.
  - `proto/` — protocols: device paths (parsing, node types, building
    nodes from their fields), graphics output (block transfers and the
    checks on their regions), text input and output (key strokes, writing
    a string in null-terminated chunks, modes and colours), pointer and
    serial devices, media (block I/O, partitions, file information),
    network (PXE packets, simple network), loaded images, debug support,
    random number algorithms, shim hashes.
  - `table/` — boot services data (memory types, memory map descriptors and
    their iteration), runtime services data (time and its validity,
    variables), the boot and runtime views of the system table.
  - `logger.rs` — the line written for each log message.
- `tests/` — tests of the library on concrete values.
- `app/` — plain Rust around the library: drivers that hand the library's
  decisions to text output, graphics, serial, block and disk devices, the
  walks of directory listings and of the firmware's variables, and a `log`
  logger.

The device itself is reached through firmware function tables, which take
raw pointers; a firmware binding implements the traits in `app/` with them.

# glimpse

Hold both mouse buttons, read any text on screen.

This crate holds Glimpse's logic as a Verus-verified library (`src/`) and the
Windows and stdio plumbing around it (`app/`).

## src/ (verified)

- `cleanup` — post-OCR text cleanup (trim, collapse whitespace), with its
  shape and idempotence proved.
- `gesture` — the hold-both-buttons state machine, specified as a step
  function over nanosecond timestamps, with its rules proved as lemmas,
  including over whole event histories (a chord fires exactly at the
  threshold; a fire needs a fresh hold).
- `hook` — translation of low-level mouse messages into gesture events and
  the swallowing of button releases after a fired gesture.
- `ring` — shared state of the progress-ring overlay and the per-tick
  drawing decision.
- `popup` — what the preview popup shows and what its keys do.
- `permission` — per-session capture permissions (denied, one-shot,
  session-wide); `prompt` — the prompt-once decision cache; both built on
  `session_table`.
- `capture` — DPI-aware capture geometry; `ocr` — frame checks before OCR.
- `config` — settings and their defaults; `error` — the error type.
- `mcp` — the MCP server: protocol types, tool catalog, the handling of each
  decoded line, and request handling. The capture permission is asked once
  per client session (the client named by `initialize`), of the
  user-supplied `PermissionCheck`, and its answer decides that session's
  capture calls.

## app/ (not verified)

The `glimpse` command line (`capture`, `mcp`, `version`, `daemon`), the
JSON-RPC stdio transport (reading, decoding and writing lines), config file
I/O, and the Win32/WinRT code: mouse hook, ring and
popup windows, GDI capture, clipboard and Windows OCR. The Windows modules
build on Windows only.

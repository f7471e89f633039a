# ctrl_modem

The core of a cellular-modem manager for OpenWRT routers (Quectel and Telit
USB modems), written in Verus: the functions in `src/` carry contracts that
Verus proves, apart from a few small trusted wrappers around outside calls
(listed at the end).

## Layout

- `src/` — the verified library.
  - `text` — character-level helpers (lines, splitting, trimming, number
    parsing) with spec functions for each.
  - `types`, `profiles`, `builtin`, `registry` — the data model, the
    built-in modem profiles and profile matching by USB IDs.
  - `at_channel` — AT command preparation, response framing and the
    reopen-once rule for dead serial ports.
  - `at_replies`, `at_status`, `antenna`, `carrier` — readers for modem
    replies (signal, registration, operator, SIM, device info, carrier
    aggregation, antenna metrics).
  - `detection`, `hardware`, `usbnet`, `fingerprint` — modem detection from
    sysfs facts, modem ids, USB-net mode decisions and the device token.
  - `diagnostics`, `mock`, `speedtest` — password redaction, the simulated
    modem's state machine, speedtest plans and lookups.
  - `laws` — properties that span several functions, as proof functions.
- `app/` — the program around the library: serial and sysfs I/O, the async
  modem interface, HTTP speedtests, serde copies of the library's types and
  the floating-point signal arithmetic.
- `tests/` — tests of the library.

Calls into `regex`, `sha2` and `data-encoding` stand in `src/` behind small
trusted wrappers whose contracts name their results.

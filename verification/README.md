# omenix

Fan and platform-profile control for HP Omen laptops, as a verified library
and a thin daemon around it.

- `src/` — the library, verified with Verus:
  - `text.rs`: whitespace, trimming, word splitting, searching, decimal
    numbers, lowercasing;
  - `types.rs`: fan modes, hardware fan modes, performance modes and their names;
  - `config.rs`: the daemon's settings and their defaults;
  - `daemon.rs`: the daemon's state, fan mode and performance mode changes,
    platform profile names;
  - `monitor.rs`: the periodic temperature check and its fan writes, and the
    temperature taken from the sensor files;
  - `protocol.rs`: the commands clients send, the daemon's handling of them
    and its replies;
  - `client.rs`: the client side of the protocol;
  - `laws.rs`: properties that relate these functions (what a client reads
    back of what it asked for, what the temperature check keeps, when fans
    go to full speed and back).
- `app/` — the daemon program: settings from the command line and
  `/etc/omenix-daemon.yaml`, the sysfs files, the Unix socket, the threads,
  and a socket transport for the client.
- `tests/` — tests of the library.

# nearbyshare

Share a clipboard and files between computers on a local network.

- `src/` is the library, verified with Verus: the state a device keeps
  (`state`, over the keyed `table`), token authentication (`auth`), message
  framing and the connection handshake (`network`), the shared clipboard
  (`clipboard`), mDNS announcements and discovery events (`discovery`), file
  transfers (`file_transfer`), decimal text (`text`) and the identifiers the
  machine supplies (`platform`).
- `app/` is the desktop glue: locks, TCP sockets, the mDNS daemon, files and
  threads, calling the library for every decision.
- `tests/` exercises the library on concrete values.

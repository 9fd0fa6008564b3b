# summit-usbgadget

Firmware updates over USB and the network for Linux devices: a DFU 1.1 function,
fastboot over USB and TCP, and a plain TCP or TLS socket, all feeding SWUpdate.

The crate is a library of protocol logic written in Rust and verified with
Verus, and a daemon around it.

## Layout

- `src/` is the library. Every function carries a contract that Verus checks.
  - `dfu`: the DFU state machine, from control requests to the image that is
    handed on.
  - `fastboot_proto`: the fastboot command language.
  - `fastboot_usb`, `fbk`: fastboot on bulk endpoints.
  - `fastboot_tcp`: fastboot packets over TCP.
  - `socket_update`: the raw update socket and its TLS settings.
  - `swupdate`: the transfer session that every protocol feeds.
  - `swupdate_ipc`: frames and decisions of the SWUpdate sockets.
  - `sysinfo`: what the machine says about itself.
  - `usb`: the composite gadget, its functions and its controllers.
  - `document`: the shared configuration file.
  - `text`, `numbers`, `wire`, `buffer`, `checksum`, `queue`, `time`, `fault`:
    what the others are built from.
- `tests/` runs the library on concrete exchanges.
- `app/` is the daemon: sockets, endpoints, processes, files and timers. It asks
  the library what to do and does it.

## What is trusted

The library calls `bytes`, `crc32fast`, `futures_util`, `openssl`, `rustix`,
`serde_json`, `tokio` and `toml`. Each call stands behind a function marked `external_body`,
or has an `assume_specification`, with a comment that says what is claimed of
the function behind it. Results that are too long to describe have a name (an
uninterpreted function) that the contracts speak of.

## Laws

Properties that span several functions are public proof functions whose names
begin with `law_`. Among them:

- `dfu::handler::law_manifest_hands_on_payload`: the payload of a file is put
  into the queue of the transfer, whole and in order, without a valid DFU suffix.
- `fastboot_usb::receive::law_download_arrives_whole`: so is a download over USB,
  however it is cut.
- `swupdate::session::law_fed_blocks_come_out`: what is put into that queue comes
  out at the end that is drained into SWUpdate.
- `fastboot_tcp::session::law_same_replies_as_usb`: a host gets the same replies
  over TCP as over USB.
- `swupdate::config::law_never_the_running_side`: an update goes to the inactive
  slot.
- `swupdate_ipc::proto::law_message_round_trip`: a frame that is sent is the
  frame that is received.

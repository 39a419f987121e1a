# esp-csi-rs

Collection of Channel State Information (CSI) on ESP devices, with the decisions and
computations verified by [Verus](https://github.com/verus-lang/verus).

A station or a sniffer captures CSI of the packets that it hears. An access point, or the
station itself, sends triggers, ICMP echo requests, so that there are packets to hear. A
station in monitor mode returns the CSI to the source of the triggers in UDP messages, with
the sequence number of the trigger, or 0 where no trigger was heard with the packet.

| bytes | content of a message                    |
|-------|-----------------------------------------|
| 0..2  | sequence number, big endian             |
| 2     | data format, see `RxCSIFmt`             |
| 3..7  | capture timestamp, big endian           |
| 7..n  | CSI samples, one byte each, at most 612 |

## Layout

- `src/` is the library. `csi`, `process` and `message` hold captured packets and their
  messages; `trigger`, `echo` and `frame` build triggers and find them in received frames;
  `time`, `sntp`, `net` and `dhcp` are the clock and the network; `collector` holds the
  devices, the steps of their tasks, and in `exchange` what two devices do together.
  `buffers`, `ticks`, and parts of `frame` and `trigger`, declare what is taken from other
  crates without proof.
- `app/` drives the radio, the sockets and the clock as the library decides. It is built for
  the chip that the features of `esp-wifi` name.
- `tests/` runs the library.

# bedrock_client

A client-side library for the Minecraft Bedrock network protocol: the RakNet
transport messages, the Bedrock game protocol's field encodings and a few of
its packets, the bookkeeping of resource pack downloads, and the decisions a
client session makes in answer to the server. The library is written in Verus
and every function in `src/` is verified against its contract, except six
small wrappers round calls into `std`, `uuid` and `sha2` (`utf8_to_string`,
`utf8_lossy_to_string`, `push_char`, `uuid_to_text`, `parse_uuid`,
`sha256_digest`), whose contracts are taken on trust and say in their doc
comments what they claim.

## Layout

- `src/wire.rs` — integer, boolean, variable-length integer and byte
  encodings, and `ByteReader`, a cursor over received bytes. Every reader
  returns `None` on too short or malformed input and then leaves the cursor
  where it was.
- `src/protocol/raknet/` — the RakNet messages (pings, pongs, the offline
  handshake, connection requests, acknowledgements), each with its byte
  encoding as a spec function and a proved decode-after-encode law.
- `src/protocol/bedrock/` — the packet serializer (strings, UUIDs, item
  stacks, command origins, optional and double-optional fields, skins), the
  splitting of a game batch into its packets, the command output packet, and
  inventory, skin and sub-chunk types. A skin animation's frame count, a
  32-bit float on the wire, is held as its bits; a persona tint carries
  `COLOR_COUNT` (4) colours.
- `src/protocol/game/bedrock_packet_ids.rs` — the table of Bedrock packet
  identifiers and names.
- `src/utils/address.rs` — internet addresses: their wire form and their
  text (dotted decimal, eight hexadecimal groups).
- `src/utils/resource_pack.rs`, `src/utils/text.rs` — the resource pack
  downloader's state machine and the file names it builds.
- `src/client.rs` — acknowledgement ranges, the tracking of missing
  datagrams with the requests to resend them, and `ChunkGate`, which holds
  level chunks back until the block palette is there.
- `src/session.rs` — what the client does in answer to each game packet of
  the handshake, the pack exchange and the start of the game, and to a
  connected ping (a pong carrying the time the caller passes in).
- `app/` — what the library leaves to its caller: the download directory,
  files and HTTP, float fields, debug printing, serializable copies of
  some types, and `driver.rs`, which checks what the library's functions
  require before it hands them a server event or a datagram.
- `tests/` — tests on concrete values.

## Not in this library

- Vectors, rotation bytes, entity links, float game rules and structure
  settings and editor data: their fields are floating-point numbers, which
  the verified code does not hold.
- NBT roots, entity metadata, recipe ingredients and the block palette
  (`build_palette`): they rest on an NBT reader, compression and block data
  that are not part of this project's sources or its dependencies.
- The network client itself (`Client::create`, the socket loop, datagram
  framing and encryption, timers): it is I/O and async plumbing, and its
  handler and framing modules are not part of this project's sources. The
  decisions inside the loop are in `src/session.rs` and `src/client.rs`;
  `app/driver.rs` shows how a loop hands them events.

# rankoder

A daemon that shrinks a media library. It follows what a Jellyfin server lists,
probes each file, decides whether a re-encode to HEVC is worth it, asks for
approval over MQTT, transcodes one file at a time with ffmpeg, checks the
result and swaps it into place. The original stays in retention for some days.

`src/` is the library: every rule of the daemon, written in Rust and proved
with [Verus](https://github.com/verus-lang/verus). It does no I/O. Where the
daemon takes turns with the outside world, such as in a swap or a round of
approval requests, the library is a state machine: it says what is to be done
next, and takes what came of it.

| module | what it holds |
| --- | --- |
| `models` | values with their invariants, the events of a file, and the workflow |
| `probe`, `analysis` | what ffprobe tells of a file, and what is decided of it |
| `approval` | rounds of approval requests, and the answers |
| `transcode` | encoder arguments, the transcode job, validation, quality, swap, recovery, queue, retention |
| `store` | what is written to the database, searches, failure classes, batches |
| `providers`, `sync`, `scheduler` | items of the media server, and when they are taken over |
| `notification`, `maintenance`, `http`, `config` | the operator, passes at the start, the webhook, the environment |
| `text`, `text_map`, `decimal`, `binary`, `rounding`, `ids`, `path`, `record` | text, numbers, identifiers, paths and flat records |

`binary` holds IEEE 754 numbers by their bits and compares them exactly.
Arithmetic on them is left to the caller; `rounding` states what it gives.

What is proved about the library as a whole stands in public proof functions
whose names begin with `law_`: a file's log tells its state, a swap never loses
the original, only a checked file is swapped in, a rejected or failed encode
leaves no temporary file, no file is queued twice and one is transcoded at a
time, the capacity for open requests is kept, and others.

`tests/` runs the library on concrete values. `app/` is the daemon around it:
the database, HTTP, MQTT, processes, files and the clock.

# file_transfer

The rules of a file manager for FTP, SFTP, S3, WebDAV and HDFS connections,
verified with Verus: downloads, uploads, copies and renames between remote
paths, their recovery after a crash, and the registry of open services.

## Layout

- `src/` is the library. Every function states in its contract what it returns
  or what it makes of its replies. Of a random identifier the shape is stated,
  and of a digest, a parsed document or an opened service what it depends on.
- `tests/` runs the library on given values, with the real outside crates.
- `app/` drives it: it asks servers, disks, clocks and the host program, and
  hands their replies to the library.

## How the library works

Work that waits for something outside is cut into steps. Each step is a value of
its own type that says what is due: a fingerprint, a chunk, a rename, a deletion.
It is consumed together with the reply, and what comes back is the next step or
the failure that ends the work. Outside the library a step cannot be written
down, it can only be had from the one before it, so the order of a transfer is
part of its types. Its fields are there to be read: a host that writes to one
changes what the next step is told. Replies of the host and the first value of a
piece of work (`UploadJob`, `RemoteJob`, `UploadPublishResolution`,
`VerifiedRemoteContent` and the like) are plain values that anyone can make.

| Modules | Subject |
| --- | --- |
| `download`, `anchored`, `local_path`, `local_source` | a download into a local file, through a temporary file that no other file is mistaken for |
| `upload`, `publish` | an upload through a partial, and what became of its publish |
| `remote`, `server_side`, `relay`, `content`, `cleanup`, `reconcile`, `retry` | copies and renames, on the server or through this side |
| `fingerprint`, `digest`, `ownership` | what identifies a version of a file, and whose a partial is |
| `start`, `policy`, `worker`, `runtime`, `path_locks`, `line`, `progress`, `finish`, `record`, `failure`, `reply` | the life of a transfer |
| `recovery` | what is made of a transfer that a crash interrupted |
| `models`, `secrets`, `endpoint`, `adapter`, `backend`, `hadoop`, `opening`, `registry`, `connection_fingerprint`, `operations` | connections and their services |
| `text`, `text_map` | text, and maps that are keyed by text |

## What is believed without proof

SHA-256 (`sha2`), random identifiers (`uuid`), the XML parser (`roxmltree`) and
opening a service (`opendal`) are called through small functions whose contracts
say what is taken for granted of each, as are `String::push` and
`String::from_utf8` of the standard library. They stand in `digest`, `ownership`,
`hadoop`, `backend` and `text`.

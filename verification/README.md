# fuse3

An asynchronous FUSE user-space library whose decisions are proved with Verus.

- `src/` is the verified core: the kernel wire format (`raw::abi`, `wire`),
  request decoding and reply encoding (`raw::session`), notifications
  (`notify`), mount option strings (`mount_options`, `mount_option`), and the
  bookkeeping that lets a path based filesystem serve the inode based protocol
  (`path`: absolute paths, inode numbers, the index of names).
- `app/` is the runtime around it: opening and mounting `/dev/fuse`, the
  session loop that reads requests and writes replies, the `Filesystem` and
  `PathFilesystem` traits that users implement, and the bridge between them.
- `tests/` runs the core on concrete requests, replies and name operations.

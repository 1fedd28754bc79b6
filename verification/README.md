# agentos

A shared folder and a screen for a virtual machine, with their logic verified by Verus.

- `src/fuse` is the guest's side of the shared folder. `session` answers the kernel's requests one
  step at a time, `model` says what each step is, and `laws` what holds of all of them. `inode` is
  the table of inode numbers, `attr` the attributes, `protocol` the messages, `codec` the base64
  text in which contents travel.
- `src/host` is the host's side of the screen. `display` is the rotation of the four surfaces,
  `capture` makes pictures of them, `input` queues events, `view` turns what happens in the window
  into events, and `laws` says what holds of all of it.
- `app` performs the steps: it talks to the kernel, the socket and the windowing system.

`app/main.rs` is the guest's program. `app/host` is built on macOS only, for the program that opens
the window. That program brings the keymap and the tables of callbacks of the input devices, and
reads the events with `create_keyboard_backend`, `create_mouse_backend` and `next_event`.

Three things are assumed of the other side:

- Requests and responses are JSON values, one to a line.
- The kind of a file is in the file type bits of its mode, as POSIX has them. `FileAttr::is_dir` and
  `FileAttr::is_symlink` read them.
- The codes of input events are those of the Linux input subsystem.

# vrchat_chat_bridge

A bridge that lets you type chat (Japanese included) on Linux and forwards it to VRChat's
chatbox over OSC. Started without arguments it runs the bridge; started with `toggle`,
`show` or `hide` it asks the running bridge, over a Unix socket, to change its window.

Layout:

- `src/` — the verified library (Verus):
  - `cli.rs`: what one start of the program does, from its arguments;
  - `ipc.rs`, `ipc/client.rs`, `ipc/server.rs`: the IPC commands, the framing of a
    request, and the server's answer to each event on a client connection;
  - `osc.rs`: the OSC message for each command sent to VRChat;
  - `ui.rs`: the window state — visibility under IPC commands and the user closing the
    window, the input text, submitting
    it, and the periodic check that resends it — with the laws proved about them.
- `app/` — the program around it: the socket, the OSC link, the slint window, `main`.
- `tests/` — tests of the library.

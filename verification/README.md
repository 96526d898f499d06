# smithay

The decisions of a Wayland compositor library, verified with Verus.

- `src/backend/x11`: a window of an X server, its input and its buffers.
- `src/backend/renderer`: transformations, buffer types, and the books of the Vulkan renderers:
  images, staging buffers, commands and formats.
- `src/wayland`: shared memory, data devices, decorations and the announcement of toplevels.
- `src/xwayland`: the life of an XWayland server.
- `src/anvil`: the main loop of a compositor in a window of an X server.
- `src/utils`: text, geometry and double buffered state.

The library holds no sockets, drivers or processes. It takes what they report as plain values and
says what to do. `app` is ordinary Rust that talks to them. The outside functions that the library
calls stand behind small functions whose contracts are trusted; each names what it calls.

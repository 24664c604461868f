# zed_embed

The parts of an editor that runs inside another app's window: it renders without a
window of its own, ships its frames to the host (the consumer) and takes input back.

`src/` is the library. It is written in Verus: every function states what it does in
`requires` and `ensures`, and the laws of the library stand beside them as public proof
functions.

| Modules | What they hold |
| --- | --- |
| `wire`, `text`, `input`, `stream`, `protocol` | the messages both ways |
| `connection`, `embed_palette`, `clipboard`, `cursor` | what the connections of a process share |
| `events`, `input_state`, `scale`, `window`, `display` | a window without a screen |
| `dmabuf`, `win32`, `memory`, `pixels` | buffers that two processes share |
| `linux`, `macos`, `windows` | what each platform decides on its own |
| `poc` | a demo that ships a triangle |
| `slop2`, `capture` | remote connections and their terminal captures |

Floating-point numbers travel as their bits; the library never computes with them.

`app/` is the demo's program, with the sockets, the GPU and the processes around the
library. `tests/` runs the library on concrete values.

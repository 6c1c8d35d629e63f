# GIF That For You

A screen recorder for Wayland desktops: it negotiates a screencast with the
XDG Desktop Portal, records the PipeWire stream with GStreamer and converts the
capture to an animated GIF with ffmpeg. It can also be driven by an AI agent
through a Model Context Protocol server.

## Layout

- `src/` is the verified library (Verus):
  - `text.rs`: decimal rendering and string building;
  - `variant.rs`: D-Bus values as the portal negotiation reads them, the
    response dictionary lookup and the `streams` parser;
  - `portal.rs`: request tokens and paths, object-path checks, response codes,
    and the negotiation as a state machine (`PortalFlow`), with its laws;
  - `recorder.rs`: the recording session kept between start and stop, the
    GStreamer and ffmpeg command lines, the cropdetect parser, output paths;
  - `ui.rs`: frame rates, recording modes, region selection, status lines;
  - `mcp.rs`: the JSON-RPC dispatch of the tool server and its replies.
- `app/` is the program around it: the GTK windows, the D-Bus calls, the
  processes, and the tool server's stdin/stdout loop. The MCP server is the
  same program started with `--mcp`, in place of a separate
  `gif-that-for-you-mcp` executable; it speaks the same newline-delimited
  JSON-RPC on stdin/stdout and offers the same two tools.
- `tests/` exercises the library on concrete values.

# dream_ini_portmaster

The verified core of a Linux-framebuffer presenter for a software-rendered GUI
on PortMaster handhelds.

`src/` is a Verus library. Its functions carry contracts that Verus proves,
with one exception: `fbdev` reads the machine's byte order through
`u32::to_ne_bytes`, a call whose contract (the bytes are little- or big-endian)
is trusted, and `native_byte_order` can say no more than that one of the two
orders comes back.

- `fbdev` — framebuffer screen information, the visible viewport, pixel
  packing for any bitfield layout, the fast 32-bit row converters and the
  generic blit (proved to agree), and the snapshots that save and restore the
  screen under the GUI.
- `pacing` — refresh-rate selection (environment value, framebuffer timing,
  default) and frame pacing on a nanosecond clock.
- `raster`, `raster_stats`, `fan` — the rasterizer's types and counters, the
  bounded first-in first-out cache of solid-fan spans.
- `coverage` — the search for a triangle row's covered span, with its hinted
  probe window and the canary probes that make it fall back.
- `fan_probe` — detecting a triangle fan in an index list, rebuilding its rim
  and finding its one color.
- `renderer_stats`, `offenders`, `primitive_stats` — renderer timings and
  counters, the board of the slowest solid fans, and their log lines.
- `ranked_offenders` — the boards of the costliest solid triangles, textured
  triangles and rejected quads, ranked by their integer costs.
- `color`, `mesh`, `bench`, `text` — channel arithmetic, index checks, the
  benchmark texture and layout cursor, and decimal/hexadecimal text.

`app/` is the program around it: the log file, the framebuffer device
(`ioctl`, `mmap`) and the environment. It opens and checks the framebuffer,
logs its layout and selects the refresh rate, but draws no frame and so saves
no screen: the GUI loop and its software renderer are not part of this crate.

`tests/` runs the library on concrete values.

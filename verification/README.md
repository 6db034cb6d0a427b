# skyboxer

Turns an equirectangular panorama into a skybox: six cube faces laid out as a
Bevy strip (one column, six rows) or a Unity cross (four columns, three rows).

- `src/` is the verified library: reading images into plain samples and
  writing them back as PNG (through `image` and `png`), face sizing and
  sampling, the two layouts, brightness adjustment of RGBA data, big-endian
  sample order, the enhancement scale, and the static file server's
  decisions: which file a request names, whether it lies inside the served
  directory (compared by path components), which file a directory request
  reads, and what is answered.
- `app/` holds what the library leaves to its callers: the floating-point
  projection and color filters, resizing and sharpening through `image`,
  the WebAssembly entry points, and the HTTP server's I/O.

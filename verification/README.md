# mipidsi

Verified driver logic for MIPI DCS displays, written in Verus.

- `src/dcs.rs`: the DCS command interface, the COLMOD (pixel format) and MADCTL (address
  mode) commands, and the bits-per-pixel depths.
- `src/options.rs`: model options, orientations and the window offsets of panel variants.
- `src/builder.rs`: display builders and the ST7789 panel variants.
- `src/models.rs`: the initialization sequences of the GC9107, ST7735s and ST7789V
  controllers, one step at a time.
- `src/buffered.rs`: an interface that queues pixel data in a caller-provided buffer and
  flushes it oldest operation first.
- `app/`: the asynchronous traits and loops that drive the library (flushing, model
  initialization with delays).

## The operation queue

The buffered interface keeps its queued operations in a `Vec<(usize, usize)>` used as a
bounded double-ended queue: new operations go to the front, flushing takes them from the
back, and the invariant `well_formed` keeps at most `MAX_OPS` of them. A fixed-capacity
`heapless::Deque` would have to be described to the verifier by a specification function
over its contents; since the capacity is the const generic `MAX_OPS`, that function would
itself be generic, and this project admits only non-generic specification functions for
what outside code holds. With a `Vec` the contents have the specification that `vstd`
already gives, and every queue operation is verified against it.

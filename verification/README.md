# magnifier_ball

A magnifier ball that bounces over the Windows desktop, with its logic verified
in Verus.

A borderless window covers the screen and is cut down to a circle in every
frame. The desktop under the circle is captured and drawn through a lens that
magnifies the middle and compresses the rim. A click on the ball ends it.

- `src/` is the verified library. It makes no system call: `overlay` runs a
  frame by naming one request after the other and being told how each went, and
  `capture` does the same for the calls of one screen capture. `motion`,
  `geometry`, `pointer`, `pixels`, `disc`, `lens`, `window` and `units` hold what
  these are made of, and `frame` states what holds over whole frames.
- `app/` is the program: it carries the requests out with `eframe` and
  `windows-sys`.
- `tests/` runs the library.

Lengths are whole nanopoints, times whole nanoseconds, and the number of
physical pixels per point is counted in steps of 2^-32, so motion, hit tests and
the profile of the lens are exact. Floating point is left to `app/`: it places
the corners of the drawn mesh, and it turns the scale and the size of the screen,
which `egui` gives in floating point, into these units, rounding to the nearest.

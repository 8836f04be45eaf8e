# doxle

The client of Doxle, a service that turns uploaded building plans into an
estimate: the plans are uploaded, processed into pages, and the user sets a
scale, traces the footprint, walls and cabinetry on a canvas, and gets a
budget. The client also manages projects, accounts and sharing.

## Layout

- `src/` — the library, verified with Verus: page layout and page lookup,
  the click rules of the drawing tools, the drawings saved per page, the
  canvas gesture machine, the
  steps of the estimate flow and its polling, multipart upload planning,
  project list state with optimistic renaming, the new-project and share
  dialogs, sign-up, sign-in and routing rules,
  theme handling, dates, and the text functions they rest on. Every public
  function states its result in its contract; the laws that span several
  calls are public proof functions next to the functions they speak of.
- `tests/` — tests of the library on concrete values.
- `app/` — the browser program around the library: storage, network calls,
  wire formats with serde, the floating-point geometry of the canvas, and
  drawing. It hands every decision to the library.

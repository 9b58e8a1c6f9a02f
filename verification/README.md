# buzz-ui

The interface state of BuzzAnimate, a vector animation program in the shape
of Adobe Animate: what each panel and dialog remembers between frames, the
command catalogue and its keyboard shortcuts, the selection, and the
decisions the panels make along the way — with their behaviour stated as
contracts and proved with Verus.

## Layout

- `src/` — the library, verified. One module per panel or concern:
  `command` (the catalogue, its labels and shortcuts), `palette` and
  `menus` (finding and greying commands), `selection`, `library`, `assets`,
  `cast`, `folders` (which folders are open), `export`, `recovery`,
  `actions`, `color` (colours typed as hex), `brush`, `rig`, `lights`,
  `filters`, `layers`, `lipsync`, `sound`, `splash`, `picture` (which
  decoded PNGs can be shown), `shortcuts`, `motion`, `align`, `ids`, and
  `text` (the string handling the others share). Each module states its
  laws beside the functions they are about, as public proof functions.
- `tests/` — the library's tests, run against the compiled crate.
- `app/` — the egui side: the windows that draw the library's state, the
  colour and key conversions to egui and peniko, the floating-point
  arithmetic (layout, and the export size's linked side), the New Document
  dialog, and the serialisable copies of the library's enums.

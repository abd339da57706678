# ul_next

A verified core of a safe Rust binding for the
[Ultralight](https://ultralight.com/) HTML renderer, written in Verus.

The binding wraps Ultralight's C API. The decisions it makes around that API
are in `src/` and proved against their contracts:

- `config`, `app`, `app_core`, `view`: the builders of the renderer, app and
  view configurations, and the exact settings that building them applies.
- `event`, `window`, `javascript`, `platform`, `bitmap`, `gpu_driver`: the
  values of the C API's enums and flag masks, pixel buffer checks, and the
  GPU driver's buffer formats and id counters.
- `gpu_driver::glium`: the bookkeeping of a GPU driver for `glium` (which
  textures, render buffers and geometry exist, what a command draws into,
  which commands are faulty) and how bitmaps are uploaded.
- `string`, `text`, `version`: conversion of the strings the C API hands out.
- `generate`, `sdk`: the post-processing of the generated bindings and the
  choice of the SDK to download.

Laws that relate several calls are public proof functions next to the
functions they speak of (for instance `lemma_ids_count_up` and
`lemma_textures_held_after_commands`).

`app/` holds what runs around the library: the `glium` rendering, the
bindings generator driven by `bindgen`, the SDK build steps and the error
types with their `Display` texts. `tests/` exercise the library on concrete
values.

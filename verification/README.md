# damascus_ui

The user-interface logic of the damascus path tracer, as a Verus library:
every function in `src/` carries a contract that Verus proves.

- `src/node_graph/`: node inputs and their display data, the inputs each
  node template is built with (`layout.rs`), and the callbacks that show
  and hide inputs when a light's type, a primitive's shape or a texture's
  type changes (`callbacks.rs`), with the laws that tie them together.
- `src/menu.rs`, `src/text.rs`: option matchers and menu search, labels of
  PascalCase names.
- `src/tab_bar.rs`, `src/panel.rs`, `src/toolbar.rs`, `src/dialog.rs`: tabs,
  panes, the toolbar's menus and messages.
- `src/style.rs`: themes and the style editor's fields.
- `src/windows.rs`: the window manager's decisions (focus, main window,
  exit, style editors, titles, saving and restoring the windows).
- `src/viewport.rs`, `src/render_pipeline.rs`: playback state, the
  decisions of one paint of a texture view (`paint_step`), and the shader
  preprocessor directives a scene needs.

`app/` holds what stays outside the proofs: serialisable copies of the
library's types, JSON files and the toolbar's file loop, and the
floating-point style and inputs.
`tests/` runs the library on concrete values.

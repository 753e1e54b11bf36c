# bevy_ratatui

Plugins for building terminal applications with Bevy and Ratatui, with their decisions verified
by Verus.

- `src/` is the verified library: which plugins the plugin group and the crossterm plugin add
  (`ratatui_plugin`, `crossterm_context`), the guard that lets one terminal context own the
  terminal at a time and the commands that set it up and give it back
  (`crossterm_context::context`), and how a software-rendered frame reaches the window's image
  (`windowed_context::plugin`).
- `app/` performs those decisions with Bevy, Ratatui and crossterm: the `Plugin` and
  `PluginGroup` impls, the terminal context, the panic hook and the windowed systems.
- `tests/` runs the library on concrete values.

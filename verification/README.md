# semantic_release_tui

The presentation layer of a semantic release tool: terminal components
(buttons, checkboxes, radio groups, selects, text inputs, forms, dialogs,
tabs, sidebars, split panes, tables, task lists, trees, a status bar),
keyboard navigation, component lifecycle, layout and theming, the command
line front, and the text handling around the Jira, Monday.com and Gemini
services.

- `src/` is the library, verified with Verus. Each public function states
  in its contract what it returns or how it changes its receiver; the laws
  that relate several operations are public proof functions (for example
  `tabs::lemma_next_then_previous`, `colors::lemma_hex_round_trip`,
  `theme_manager::lemma_register_then_unregister`).
- `app/` is the front end around it: terminal input and drawing, theme
  preferences on disk, command line parsing, and everything that computes
  with floating point (fuzzy search scores, easing, progress, color
  blending, frame statistics).
- `tests/` exercise the library.

Calls into other crates (`chrono`, `regex`, `tui_textarea`, `serde_json`,
`std::time::Instant`) go through small trusted wrappers whose contracts say
what those crates do; everything around them is verified.

# galileo_maplibre

Vector-tile styling from MapLibre style layers, with machine-checked contracts.

- `src/` — the verified library: the style layer model (`style::layer`,
  `style::layer::symbol`), the reading of `text-font` stacks
  (`layer::fonts`), the rule, background and tile-URL decisions
  (`layer::vector_tile`), and the text helpers they rest on (`text`).
- `app/` — serde forms of the style layers and the galileo side: evaluating
  style values into galileo expressions and building the vector-tile layer.
- `tests/` — tests of the library.

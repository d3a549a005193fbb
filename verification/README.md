# lattice_graph

Graphs on lattices (grids) for path finding on tile maps: square grids, with or without
wrap-around, and hex grids in offset, axial and double coordinates. The library is written
in Verus: each public function carries a contract, and the contracts and the laws that tie
the functions together are proved: index round trips, reads after writes, and moving a step
and back on square and diagonal shapes, axial and double coordinate hex shapes, and point
top offset hex shapes. Flat top offset moves are not reversible and no such law is stated
for them.

- `src/` — the verified library.
  - `array2`, `array2d`, `fixedvec2d`: 2d storage in one `Vec`, row after row.
  - `square`: the square grid graph, with its node, edge and neighbor iterators.
  - `lattice_abstract`: a graph over any `Shape`, which decides coordinates, offsets and
    moves; `lattice_abstract::square` holds square and diagonal shapes.
  - `hex`: hex shapes (`offset_based`, `axial_based`, `double_coord`).
  - `bitset`: the `fixedbitset` calls behind the visit maps.
- `tests/` — tests run against the compiled library.
- `app/` — the `petgraph` traits on borrowed views of the graphs, `serde` support for
  `FixedVec2D`, and conversions from `petgraph` and `hex2d` types.

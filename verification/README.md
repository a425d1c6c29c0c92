# hydroflux-solver-2d

A 2D shallow-water flood solver on structured Cartesian meshes: HLLC
Riemann fluxes, well-balanced (Audusse / Liang–Marche) bed reconstruction,
MUSCL slopes, SSP-RK2 time stepping, semi-implicit Manning friction, and
GeoTIFF / ESRI ASCII grid input.

## Layout

- `src/` — the verified library (Verus). The cell state `(h, hu, hv)`,
  primitives, physical fluxes, boundary ghost states and face-level rules
  (Audusse hydrostatic reconstruction, two-sided well-balanced face fluxes,
  face bed elevation, wet/dry front buffer) are generic over the `Real`
  scalar trait and carry exact contracts over its spec functions. An
  implementation of `Real` also states that its product of finite values
  commutes, from which the symmetry of the cross-momentum fluxes is proved. The ESRI ASCII grid scanner (`ascii_grid`, on top of
  the line and token scanner in `text`) is proved against a character-level
  specification of the format: header order, ASCII-case-insensitive keys,
  `str::lines` / `split_whitespace` semantics, and the error reported first
  in file order.
- `app/` — the production layer around it: the `f64` scalar `F64`
  implementing `Real`, the floating-point kernels (HLLC solver, finite-volume
  update, CFL bound, source terms, the Manning normal-depth ghost of a
  discharge inflow onto a dry boundary), the simulation driver, and file I/O
  (GeoTIFF through `surtgis-core`, gzip through `flate2`).
- `tests/` — tests of the library, including the generic kernels run with a
  plain `f64` scalar and with a forward-mode dual number.

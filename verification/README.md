# pumpkin_data (noise router)

The data model of the world generator's noise router.

- `src/noise_router.rs`: the operation and wrapper kinds of the density
  graph, the integer-valued component data, the weird-scaled mapper curves
  (`max_multiplier`, `scale`) and clamping (`ClampData::apply_density`), with
  contracts and the laws that relate them.
- `src/double_bits.rs`: doubles held as `f64::to_bits` patterns and the order
  in which `<` compares them, which the comparison-only operations use.
- `app/lib.rs`: the component data that holds `f64`/`f32` values and the
  operations that compute in floating point (linear and unary densities), plus
  the `f64` faces of the library's operations.

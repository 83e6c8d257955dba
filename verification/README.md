# wolfram_library_link

Verified conversions between Rust values and LibraryLink argument and result slots,
and the Wolfram Language type signatures of functions exported through LibraryLink.

- `src/expr.rs`: Wolfram Language expressions (integers, strings, symbols, normal
  expressions), their views and their text.
- `src/sys.rs`: the LibraryLink scalar types and a model of argument slots.
- `src/data.rs`: C strings without NUL bytes, handles of numeric arrays, images and
  data stores with their element type names, and typed arrays and images borrowed
  from their argument slots.
- `src/args.rs`: the `FromArg`, `IntoArg`, `NativeFunction` and `WstpFunction` traits,
  their implementations, and `get_args_list`.
- `src/laws.rs`: what reading a slot gives back of what was written to it, and how
  parameter types relate to return types.
- `app/lib.rs`: the raw side: C unions of pointers, the Kernel's string ownership,
  real and complex numbers, reference casts of raw arrays and images, and the link.

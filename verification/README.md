# savefile_derive (ABI argument rules)

The rules that the savefile derive macro applies to the methods of a trait
exported across the savefile ABI, as a verified library:

- `src/model.rs`: the library's description of a Rust type (what the rules
  read of a `syn::Type`), the decision for an accepted argument (`ArgClass`)
  and the reasons for a refused one (`AbiTypeError`).
- `src/classify.rs`: `parse_type` and `parse_box_type`, which accept or refuse
  an argument type and say how it travels, proved equal to the rules stated as
  spec functions.
- `src/closure.rs`: names and layout of the helper items for closure arguments.
- `src/method.rs`: the per-argument and per-method plan of the generated
  trampolines, and the sizes of their buffers.
- `src/text.rs`: identifiers and decimal numbers.
- `src/laws.rs`: properties of the rules over all inputs.
- `app/lib.rs`: the macro side: builds the descriptions from `syn` types,
  reports refusals with their messages, and writes the tokens with `quote`.

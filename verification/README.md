# fsr_sdk

Checked Rust bindings for the AMD FidelityFX (FSR) SDK v2.3.0 upscaler on
Windows/DX12, with the decision logic verified by Verus.

- `src/` — the verified library: ABI constants and plain-value descriptor
  models (`abi`), error values and their messages (`error`, `text`), checked
  dimensions and the creation descriptor chain (`upscaler`), resource
  validation and dispatch descriptor construction (`dispatch`), the ordered
  dispatch inspection and its contract (`inspect`), the native-context
  lifecycle and dispatch-poison policy (`context`), and loader export names and
  failure messages (`loader`).
- `app/` — the native surface: raw `repr(C)` ABI declarations, explicit DLL
  loading through `libloading`, COM inspection through `windows`, native calls,
  and the floating-point frame scalars. It reads native state into plain values,
  asks the library what to do, and carries out the answer.
- `tests/` — tests of the library.

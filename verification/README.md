# taceo-proof-client

Client-side logic for outsourced coSNARK proving, written in Verus.

- `src/` is the verified library: decoding node-provider keys, sealing the
  secret shares of a job to its three parties, checking the Ed25519ph
  signatures that nodes put on proof results, tagging witness entries as
  public or private, and interpreting the replies of the result stream and
  of the delegation service. Calls into `base64ct`, `uuid`, `serde_json`,
  `bincode`, `ed25519-dalek`, `sha2` and `crypto_box` stand behind small
  trusted wrappers whose contracts say what the library relies on.
- `app/` is the unverified shell around it: HTTP and WebSocket I/O, serde
  copies of the library's records, the WebAssembly bindings, and the calls
  into the coSNARK crates that split inputs and witnesses into shares.
- `tests/` exercises the library with the real outside crates linked.

`app/` does not build as it stands. It calls `co_circom_types`,
`co_noir_types`, `noir_types` and `co_groth16`, which the crate registry
does not provide, so `Cargo.toml` does not list them. Its `wasm_bindgen`
bindings also have to be built through Cargo: the attribute macros read the
package variables Cargo sets.

The proof service's API clients are not published crates, so `app/api.rs`
and `app/ppd.rs` make the HTTP calls with `reqwest`. The Circom witness and
Groth16 proof types come from `taceo-circom-types`, which has no BLS12-377
support.

# tryx

Outcome types for `?`-style control flow beyond `Result` and `Option`,
with their behaviour stated as Verus contracts and proved.

- `cancel`: `Cancel<T>` and `CancelWith<T, R>`, with `CancelToken` / `CancelHandle`.
- `checked`: `Checked<T>` and `FloatFailure`; `classify` decides acceptance from a float's class.
- `parsing`: `Parsing<'a, T>` and the parsers `literal`, `take_while`, `ident`, `quoted_string`, `eof`.
- `stage`: `Stage<S, T, P>` for staged computations that keep partial state.
- `outcome`: the shape check behind the `Outcome` derive.
- `laws`: proof functions relating `branch`, `from_output`, `from_residual` and friends.

Each outcome type exposes the `Try` protocol as plain functions (`branch`,
`from_output`, `from_residual`, `from_error_residual`, and `into_result` on the
residual for absorption into `Result`), so `?` is written as a `match` on
`branch()`.

`app/` holds what cannot be verified: `Finite` (an `f64` wrapper with checked
arithmetic) and the `syn`/`quote` token generation of the derive.

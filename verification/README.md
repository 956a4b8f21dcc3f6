# wl_library_link

A verified layer for Rust functions that the Wolfram kernel loads through LibraryLink.

* `src/` is the library, verified with Verus. `wrapper` is the body of a LibraryLink
  function: it reads the arguments, runs the wrapped function and says what the kernel is
  answered. `marg` reads and writes the strings that pass between the library and the
  kernel, `expr` builds the failures that are reported, `catch_panic` keeps the panics that
  were caught and picks the one to report, `engine` is the view that a function has of the
  kernel, and `status` holds the error codes.
* `app/` is the edge to the kernel: the panic hook, the C types, and the macro
  `generate_wrapper!`. Besides the crates in `Cargo.toml` it uses `wl_expr`, `wl_parse` and
  `wl_library_link_sys`, which are not on crates.io.
* `tests/` run the library.

Expressions are those of the `wolfram-expr` crate. Its constructors and its printing are
trusted, as is `core::str::from_utf8`; each such item says in its doc comment what is taken
for granted.

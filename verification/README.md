# rustbook

A Verus library holding the verified logic of a collection of small Rust
programs and libraries: each function states its behaviour in `requires` /
`ensures` and Verus proves it.

- `src/adder.rs` — adding two.
- `src/blog.rs` — a blog post that must be reviewed and approved twice before
  its text is shown; laws on the review state machine.
- `src/sorting.rs` — merge sort (`merge`, `slpit_vector`, `merge_sort`), proved
  to return the unique sorted arrangement of its input.
- `src/statistics.rs` — mean and median as integer fractions, and the mode
  counted in a `HashMap`.
- `src/rectangle.rs`, `src/matrix.rs` — rectangle geometry and 2 x 2 matrix
  products over any element type whose arithmetic follows its specification.
- `src/lifetimes.rs`, `src/text.rs`, `src/pig_latin.rs` — string helpers,
  binary search and pig latin.
- `src/server.rs` — request routing and HTTP response framing of a small web
  server.
- `src/guessing_game.rs` — the number-guessing game: the secret number, the
  reading of a guess and the hint.
- `src/minigrep.rs`, `src/company.rs`, `src/restaurant/` — argument handling,
  a department staff table, and a restaurant's modules.

`app/` holds the programs themselves (input and output, threads, floating
point, a procedural macro); `tests/` runs the library on concrete values.

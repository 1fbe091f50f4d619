# git2-filters

Filters, blobs and merge drivers for libgit2: loading and applying filter lists, filtering
and writing blobs, and custom filters and merge drivers that libgit2 calls back.

- `src/` is the library, verified with Verus. It decides what each call into libgit2 is
  given, what its answer means, and what each callback out of libgit2 does. It does not call
  libgit2: the call that only libgit2 can make, and the user's code with its panics caught,
  are handed to an operation as functions. The contracts say when such a function is
  called, with what, and what comes of each answer that it can give.
- `app/` joins the library to libgit2: the C interface, the C callbacks, ownership of what
  libgit2 holds, panics, and the flag types as `bitflags` makes them.
- `tests/` runs the library against stand-ins for libgit2.

One call of std is taken on trust, in `src/merge_driver.rs`: what `std::str::from_utf8`
gives.

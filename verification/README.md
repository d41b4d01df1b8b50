# spin_apps

The verified core of a handful of Spin components.

- `src/` (Verus): the calculator component; the café bot's rules (which
  cities and cafés may be drawn, the weighted draw, the photo limit, the
  redirect policy when downloading pictures, the texts of every request and
  post, the multipart upload of a picture); the fortune client's status
  handling and body reading.
- `app/`: the components themselves, doing the HTTP, wasi, file and JSON
  work and the floating-point comparisons, and calling the library.
- `tests/`: tests of the library on concrete values.

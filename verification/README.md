# rizzoo

Material 3 colour schemes from an image, a URL or a hex colour, written
into user templates.

- `src/` is the verified library: colours and their text forms, the
  template grammar, filters and evaluator, the context a scheme gives
  templates, scheme assembly and style blending, configuration merging,
  command-line validation, cache keys, download, linking and wallpaper
  decisions, and the palette preview's layout. Calls into Material Color
  Utilities, `sha2`, `md5`, `winnow`, `image`, `rand`, `directories`,
  `yansi` and `tabled` stand behind small trusted wrappers. Each wrapper's
  doc comment says what its contract claims and what it leaves open: some
  results are named and tied to their arguments (hashes, decoded
  thumbnails, colour clusters, schemes, table layout), some are only
  bounded (the ranking of seed colours), and some are left free (the home
  directory, random picks, terminal styling codes).
- `app/` is the `rizzoo` program: argument parsing, the configuration
  file, files and network, floating-point colour arithmetic (HSL,
  luminance, contrast), printing, the wallpaper setters and the file
  watcher.
- `tests/` exercises the library.

Filters that need floating-point arithmetic do not compute it: they return
a request, the caller answers it, and evaluation resumes with the answer.

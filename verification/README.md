# rockers

Pulls container images from a registry and runs a command in a container
built from one.

- `src/` is the library, verified with Verus: image references
  (`image`), the OCI image-spec documents and their rules (`specs`), what
  the registry client asks and how it picks a manifest (`registry`), the
  names, paths and arguments of pulling and running (`cli`), and string
  helpers stated over `Seq<char>` (`text`).
- `app/` is the program: the command line, the HTTP requests, JSON, the
  archives, namespaces and mounts.
- `tests/` runs the library on concrete values.

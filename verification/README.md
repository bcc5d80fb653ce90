# ftc_http

A command-line tool that downloads, uploads, wipes and builds Java sources on
an FTC robot controller through its OnBotJava HTTP service.

- `src/` is the library, verified with Verus: the package-declaration parser
  that predicts where a file is stored, the listing filters, the addresses of
  the service, the choice of host, the build's deadline, the plan of a run,
  and the texts of the errors.
- `app/` is the program: option parsing, the configuration file, the HTTP
  requests and the file system.
- `tests/` runs the library on concrete values.

# platform_verifier

Verification of TLS server certificates with the certificate engine of Windows.

- `src/` is the library, verified with Verus. It decides which calls are made to
  the engine, with which arguments and in which order, what each reply means, and
  when each handle is given back. `session` holds the course of a verification,
  `course`, `verdict` and `handles` what is proved of it as a whole.
- `app/` makes the calls and offers the result to rustls.
- `tests/` runs the library against replies made up for the purpose.

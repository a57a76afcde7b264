# poney

The core of a small WSGI server written as a Verus library.

- `src/application.rs`: splits an application path (`pkg.module` or
  `pkg.module:factory(args)`) with the `regex` crate and decides how the
  application is taken out of its module.
- `src/pep3333.rs`: the `write` callable of PEP 3333. It frames each chunk the
  application writes and sends the response head once, in front of the first
  chunk; the laws `lemma_head_sent_once` and `lemma_only_body_after_head` state
  this for any series of writes.
- `src/worker.rs`: the CGI environment a worker hands the application, and the
  decoding of the response body as UTF-8 text.
- `src/http.rs`, `src/server.rs`: the texts the test server answers and prints.
- `app/`: the Python extension module (pyo3), sockets (socket2) and the HTTP
  servers (hyper, tokio) around the library.

# edgelet_http

Serves HTTP over TCP sockets, Unix domain sockets and sockets that were passed to
the process.

`src/` decides, and what it decides is proved with Verus:

* `listen`: what is to be done, step by step, to get from a URL to a listener;
* `server`: which connections a running server lets in, which it refuses, and
  when it ends;
* `certificate`, `tls`: how a certificate becomes a TLS identity;
* `identity_certificate_request`: a module's request for a certificate;
* `address`, `error`, `text`: addresses, errors, and numbers as text.

`app/` acts: it opens sockets, runs the futures of hyper and tokio, logs, and
reads and writes JSON.

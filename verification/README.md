# xoa-proxy

An HTTP(S) and gunzip bridge for XAPI's `VM.import`. XAPI speaks plain HTTP and
cannot consume gzip-compressed streams or reach HTTPS sources; the proxy fetches
the image, decompresses it where needed and streams it back over HTTP/1.0.

    GET /image.xva?src=<url>[&verify_ssl=false]

- `src/` is the decision logic, verified with Verus: format detection, the steps
  of an import from the request to the stream, the answers to errors, the choice
  of the HTTP client, and the import lock. `exclusion.rs` shows that at most one
  import runs at a time. It does so on a model of the events that happen to
  imports, which takes two things for granted of tokio's mutex: it is granted
  exactly where no guard of it is alive, and dropping a guard frees it.
- `app/` is the program around it: command line, sockets, HTTP, logging, and the
  pipeline that streams an image chunk by chunk.
- `tests/` runs the library.

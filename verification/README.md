# quiche4j_jni

Native side of the Java bindings for quiche, Cloudflare's QUIC and HTTP/3
library, with its logic verified by Verus.

- `src/` is the verified library. Java talks to it through plain numbers:
  `codes` maps quiche's errors and packet types to the numbers Java sees;
  `outcome` turns the result of a call into a code and the bytes to copy back;
  `addr` decodes socket addresses from raw bytes; `settings` unpacks HTTP/3
  settings packed as big-endian integers; `packet`, `config`, `connection` and
  `http3` make the calls into quiche, each behind a small trusted wrapper whose
  contract states what quiche's source shows.
- Configurations and connections carry a ghost model: a configuration records
  the settings handed to quiche; a connection records what it was created
  from, the state its queries report (established, closed, the close error,
  statistics, readable and writable streams, send capacities, ...) and every call handed to quiche on it with its arguments; an HTTP/3
  connection records its settings and the stream its next request gets.
  The contracts of the public functions are stated over these models, so
  they say which bytes, addresses, flags and directions reach quiche.
- `app/` holds the JNI entry points (`Java_io_quiche4j_...`): they read
  arguments from the JVM, call the library, and write results back.
- `tests/` exercises the library on concrete values.

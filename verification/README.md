# printnanny_nats

The logic of PrintNanny's NATS workers and camera pipelines, verified with Verus.

`src/` is the library. Each public function states what it returns in its
contract, and the contracts are proved:

- `text`, `decimal`: splitting, searching and replacing in strings; decimal
  integers read and written as `str::parse` and `format!` do.
- `subjects`, `routing`, `subscriber`: the subjects of a Pi, and how a message's
  subject leads to the request or event handler for it.
- `events`, `commands`, `stamp`: Pi commands and the status events a Pi
  publishes while it carries them out.
- `publisher`: the subject and event of a publication asked for on the command line.
- `relay`: the worker that relays events from a Unix socket to NATS through a
  bounded first-in first-out buffer.
- `systemd`, `message`: the systemd calls and the replies of requests.
- `tensor`, `recording`: tensor metadata and recording part paths.
- `pipeline`, `options`, `video`, `cam`, `broadcast`, `factory`, `nats_sink`:
  descriptions of the GStreamer pipelines and the NATS sink element.

`app/` runs the worker, the request subscriber and the two publishers: sockets,
NATS connections, processes and the JSON forms of events. `tests/` runs the
library on concrete values.

What is not here, and why:

- Running the pipelines: this crate does not depend on GStreamer, so the
  library describes each pipeline as data (its elements, properties and links)
  and nothing starts one. Registering the plugin elements is GStreamer's too.
  A link that GStreamer would refuse at run time is not modelled.
- The dataframe aggregation of inference results: it computes on floating-point
  tensors with polars, which this crate does not depend on.
- The request handlers (settings, cameras, systemd over D-Bus, crash reports):
  they need PrintNanny's services and API client, which this crate does not
  depend on. The subscriber answers every
  request it can read with an error saying that no service handles it.
- The typed OctoPrint print-job payload: its type belongs to the API client; a
  print-job payload is checked to be a JSON object.

# Rove sensor interface

A robot's sensors, described and served over HTTP and UDP. The library under `src/` is
verified with Verus; `app/` is the program around it.

| Module | What it holds |
| --- | --- |
| `driver` | command modes, field descriptors, the `SensorDriver` trait |
| `drivers` | the example sensors: a GNSS receiver and a CAN motor controller |
| `registry` | what is known of a registered sensor |
| `packet` | the message types of the UDP protocol and their printed headers |
| `http::fields` | example payloads and schemas of a sensor's fields |
| `http::protocol` | the description of a sensor's UDP protocol |
| `http::routes` | the routes and what they answer |
| `http::openapi` | the OpenAPI document |
| `udp::stream` | the loop that keeps a command stream alive |
| `json`, `apidoc` | what `serde_json` and `utoipa` values hold, and what is trusted of the calls that make them |
| `text` | building and comparing text |

Each public function states in its contract what it returns. Beside the functions stand
proofs of what holds between them, for instance that every path in the list of sensors is
served, that the documented routes are the served ones, and that an example payload is what
the schema of the same fields describes.

Floating point, parsing of commands, sockets, timers and logging are in `app/`.

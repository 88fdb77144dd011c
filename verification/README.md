# environment_server

A function-as-a-service environment: an HTTP server that loads a user
function when asked to specialize (`POST /specialize`, `POST /v2/specialize`),
answers health checks (`GET /healthz`), and runs the loaded function on every
other request.

- `src/` is the verified library: the specialization requests and their JSON
  field rules, the loaders and the state of the loaded function, the routing
  of requests, the answers of the server's own endpoints, and what the
  environments decide while loading and invoking a user function (where its
  file lies, which handler serves it, how headers and status codes are
  carried across, and the check of a JavaScript source package).
- `app/` is the program around it: the actix-web server, the command line,
  the JSON bodies, and an environment that loads user functions from dynamic
  libraries.
- `tests/` exercises the library on concrete values.

# alpee_core

The host of Alpee modules. Modules are separate programs that the host finds
in its modules directory, starts, and talks to over a Unix socket with
length-delimited JSON frames; clients reach them over HTTP and WebSocket.

- `src/` is the verified library: the registry of modules (`registry`), the
  manager and its rules for registration, status changes and loading
  (`manager`, `module`), the configuration (`config`), the IPC protocol and
  the per-connection state machine (`protocol`, `ipc`), the WebSocket
  subscriptions (`ws`), the REST outcomes (`rest`) and the example module's
  answers (`example_module`). Each public function carries its contract;
  the laws of the registry, the manager and the subscriptions are proof
  functions beside them.
- `app/` is the program around it: configuration and manifest files, the
  Unix socket server, the HTTP and WebSocket handlers, process spawning, and
  the serializable copies of the library's types.
- `tests/` exercises the library on concrete values.

# upnpav

A UPnP AV 2.0 device library (media renderer side) whose logic is verified
with Verus: state variables and their eventing, SOAP control, GENA
subscriptions, SSDP messages, device description and SCPD documents,
DIDL-Lite metadata, and the AVTransport, ConnectionManager and
RenderingControl services.

Layout:

- `src/` — the verified library. Public functions carry contracts stated
  over the views of their arguments and results; the laws that relate
  several functions are public proof functions beside them. A service's
  state sits behind shared locks: what a service method does to it is stated
  as far as the locks' invariants go (which service, which definitions,
  which event URL), not value by value. `set_state_var` has no `ensures`.
  - `text` — string building, decimal formatting and parsing.
  - `types::upnp` — services, devices, errors, data types, action arguments,
    the `Action` trait and the action registry.
  - `state` — state variable definitions and the state store with its
    instances.
  - `xml` — XML tokens read with quick-xml, XML written with quick-xml,
    escaping.
  - `soap`, `gena`, `ssdp`, `http`, `scpd`, `didl`, `config` — the protocol
    modules.
  - `services` — the three services: their constant tables, the application
    traits, the bridges from SOAP actions to those traits, LastChange.
- `tests/` — tests run against the compiled library.
- `app/` — the network side: axum routes for the handlers, the SSDP sockets
  and announcement loops, and the start-up sequence.

# mosquitto_client

The logic of a client for the Mosquitto MQTT broker, verified with Verus.

- `src/` is the verified library: the result codes of the client library
  (`sys`), the errors built from them (`error`), messages and subscription
  matchers (`message`), the library version (`version`), decimal rendering of
  numbers (`decimal`), and the decisions taken from the client library's
  answers, among them the waits for a connection and for the confirmation of a
  publication (`session`).
- `app/` binds the C client library: it calls it, receives its callbacks,
  copies the values it hands over into the library's types, and runs the
  waits, asking the library at each round what to do next.
- `tests/` runs the library on concrete values.

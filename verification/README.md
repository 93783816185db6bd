# swindle

Firmware logic of the Swindle wireless SWD debugger for ESP32, as a
verified library (`src/`) and the board firmware around it (`app/`).

`src/` holds what the firmware decides, each function with its contract
and the laws of the modules as proof functions:

- `fsm`: the connection state machine (states, events, the transition
  table, the one-message outbox) and the event codes used on the queue.
  Handling an event returns the action to carry out; `app/` makes the
  matching executer call.
- `handle_connection`: the transmit buffer in front of the GDB socket,
  written as steps: an operation either finishes or asks the caller for a
  `send` whose outcome it then takes; and the reaction to socket reads.
- `fsm_led`: the dimming of status LED colours.
- `qevent`: the receive protocol of the queue-plus-notification channel.
- `provisioning`, `executer`: decoding of provisioning events and the
  outcome of an address negotiation.

`app/` holds the ESP-IDF, FreeRTOS, socket and thread plumbing that
carries the decisions out.

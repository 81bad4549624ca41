# Ugly Duckling

Firmware of the Ugly Duckling, an ESP32 device of FarmHub. The device joins its
wireless network (by WPS where none is stored), sets its clock, connects to an MQTT
broker that it looks up by mDNS, subscribes to its commands, announces itself, and
then reports its uptime and free memory.

## Layout

- `src/` is the library, and Verus verifies it. It decides what the firmware does and
  makes what it publishes. It does no I/O: what alternates with the hardware or the
  network is a state machine that takes a reply and says what to do next.
  - `wireless`, `bring_up`: what the radio is configured with, and the steps of
    bringing a network up.
  - `kernel`, `kernel::init`: a device, and the steps of starting it.
  - `kernel::wifi`: the task that keeps the station connected.
  - `kernel::mqtt`: topics, messages, and what is done about incoming ones.
  - `kernel::mdns`, `network`: services on the local network.
  - `kernel::rtc`: setting the clock.
  - `kernel::command`, `kernel::console`: commands by name, and the console light.
  - `tasks`, `payload`, `text`: announcements, reports, the reset button and the
    light, and the JSON text that is published.
- `app/` runs the library on the hardware: it performs what the state machines ask
  for. It also holds what is logged, the names of the configuration's keys, and the
  queue of messages. `kernel::network` there connects a device without the queue, and
  that is what `Device` starts with; `kernel::mqtt` connects one with the queue and a
  handler that answers incoming messages.
- `tests/` runs the library on examples.

The firmware's version and configuration are taken from the environment variables
`GIT_VERSION` and `DEVICE_CONFIG` (JSON) when `app/` is built; both have to be set.

# OpenHome

An OpenAction plugin for OpenDeck that discovers and controls the accessories
of Homebridge Config UI. The decision logic, the data model, the parsing of
Homebridge's replies and the text the plugin shows form a library whose
contracts are proved with Verus; a thin program around it talks to OpenDeck
and to Homebridge.

## Layout

- `src/` — the verified library (crate `openhome`):
  - `text`, `json`, `registry`, `order`: character-level text handling, the
    JSON model, a string-keyed map and a stable two-key sort;
  - `models`: settings, services, characteristics and the device catalogue;
  - `normalise`, `decode`: the current and legacy shapes of Homebridge's
    accessory replies brought to one form and decoded;
  - `catalog`: the catalogue, sorted and placed in rooms;
  - `address`, `auth`, `errors`, `session`: the Homebridge address, signing
    in, error texts, tokens and the catalogue cache;
  - `state`, `reconnect`: the shared plugin state and the reconnect loop;
  - `actions`: the decisions of the Switch, Brightness, Set State and Adjust
    State actions.
- `tests/` — tests of the library on concrete values.
- `app/` — the plugin program: OpenDeck events, HTTP requests, background
  tasks, serde forms of the data, and the floating-point arithmetic of the
  Brightness and Adjust State actions.

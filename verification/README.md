# replay_control

The decision logic of the Replay Control companion server for RePlayOS,
written in Verus and proved against its contracts.

`src/` is the verified library:

- `auth` — which role each route and server function needs, the CSRF origin
  check, the login/access redirects and the auth middleware's decision;
- `activity`, `pipeline`, `identity`, `update_flow` — the single activity slot,
  the populate and identity phases, the update's progress;
- `watcher`, `app_state`, `tuning` — filesystem events, config/storage
  detection and the environment settings of the background work;
- `cache`, `rom_cache`, `images` — freshness of the library caches, the scan
  cache and the box-art paths of an image index;
- `server_fns`, `rest`, `core_api`, `favorites_view`, `titles`, `i18n`,
  `status`, `analytics`, `update_script` — what the web UI, the REST
  endpoints and the libretro core are served;
- `text`, `encoding` — character-level helpers and percent-encoding.

`tests/` exercises the library on concrete values. `app/` is the server
binary: command line, HTTP routes, system commands and watchers, which hand
plain values to the library and act on its answers.

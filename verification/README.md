# apm-lyrics-ndp

The verified core of a Navidrome plugin that fetches synced (TTML) lyrics
from Apple Music for tracks tagged with an iTunes catalog ID.

- `src/` — the library, verified with Verus: decoding the catalog ID from a
  track's tags (`tags`, `bytes`, `digits`), scanning the web player's pages for
  script bundles and the MusicKit token (`scan`, `urls`), the plugin's settings
  (`config`), the requests it sends and the cache entries it keeps
  (`requests`), the API's answer (`models`), the decisions between host calls
  (`flows`) and the messages of its errors (`errors`).
- `app/` — the plugin glue: host calls, reading audio files, JSON.
- `tests/` — tests of the library, including comparisons of the scanners with
  the `regex` patterns that describe them.

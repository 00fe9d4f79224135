# cast-server

A local network media server: it indexes a folder of TV series, fetches
metadata from TMDB, streams episodes over HTTP (converting MKV, AVI and WebM
to MP4 with ffmpeg) and advertises itself on the local network.

The decisions of the server are a library verified with Verus (`src/`); the
HTTP server, the database, the ffmpeg and TMDB calls and the command line are
ordinary Rust around it (`app/`).

## Layout of `src/`

- `text`, `unicode`, `paths`, `patterns`: strings as character sequences,
  Unicode classes, path components, and the filename patterns of episodes.
- `library`, `scan`: parsing episode file names, building the library from a
  listing of the media folder, stable ids, lookups and insertion.
- `subtitle`: SRT to WebVTT.
- `routes`, `watching`, `items`: what the API answers: byte ranges, encoder
  choice, the next episode of a series, the continue-watching row, labels,
  list order, and which files go with an episode.
- `media`, `remux`: reading ffmpeg's output, the ffmpeg arguments, and what
  to do with a video that needs converting.
- `tmdb`: search queries, image names, and the steps of a metadata fetch.
- `desktop`, `ingest`: configuration, the `.env` file, the log buffer, and
  the series name of an imported file.
- `network`: the interfaces and MAC address a client can wake the server by.
- `sorting`: a stable sort by string keys.

Each public function states its result in its `ensures`; the laws that span
several calls are public proof functions (`lemma_*`).

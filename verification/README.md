# souris-dw

A music and video downloader for YouTube and Spotify, driving yt-dlp,
ffmpeg and deno.

- `src/` is the library, written in Verus: its functions carry contracts
  (those whose result only the environment decides, such as the user's
  directories, state what is handed to the system and leave the rest to
  a function that takes the result), and the laws of the library
  (format names read back, a configuration key reads back what was set,
  version comparison is a strict order on numeric versions, the retry after an HTTP 403 uses the
  Android player client, the selection of the terminal interface stays
  inside its list, …) are proof functions.
- `app/` is the `souris-dw` command: argument handling, processes, HTTP,
  files and the terminal interface, around the library.
- `tests/` runs the library on concrete values.

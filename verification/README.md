# angy

Angy is a Discord bot that joins voice channels and plays audio from
yt-dlp, local files or a Plex library.

- `src/` is the verified library: the slash-command option map and its
  accessors (`options`), the command schema the bot registers (`schema`),
  the choice of a file in a Plex search answer (`plex`), the decisions of
  the command handler and the texts it answers with (`handler`), and the
  string operations they rest on (`text`).
- `app/` is the program around it: the Discord gateway (serenity), the
  voice connection (songbird), the Plex HTTP request (reqwest), the
  configuration (micronfig) and logging.
- `tests/` runs the library on concrete values.

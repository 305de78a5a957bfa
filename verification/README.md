# leo_bot

A Discord bot that plays audio from a link in a voice channel and answers a few text commands.
What it decides is written in Verus and proved; what it sends and receives is ordinary Rust.

- `src/` is the library. `text` and `json` are its vocabulary; `gateway` holds the payloads, the
  sender and reader of the gateway, the events and commands, the way from a request to play to a
  voice connection, the frames of a voice server, the audio packets, and the messages over HTTPS.
- `tests/` runs the library on concrete values.
- `app/` is the program: sockets, processes, timers and the environment. It hands the library what
  happened and does what the library answers.

The program reads `DISCORD_TOKEN` and `DISCORD_APP_ID` from the environment or a `.env` file, and
runs `yt-dlp` and `ffmpeg`.

# pokecatcher

A chat bot that catches Pokémon in a Twitch channel. The library in `src/`
holds its decisions, each with a proved contract; `app/` runs the bot: it talks to
Twitch (chat and authorization), reads and writes the JSON files, and
carries out the steps that the library decides on.

- `src/text.rs`: text helpers over the character view of strings.
- `src/context.rs`: settings, bot state, chat messages, and the steps the bot
  takes (`Action`).
- `src/pokemon.rs`: what the bot reads in the Pokémon bot's replies, what it
  does on each chat message, and the two stages of a catch check.
- `src/message.rs`: where each incoming message goes; the stop command.
- `src/config.rs`: stored settings and tokens, defaults, chat login.
- `src/token.rs`: the decisions of the token flow.
- `src/laws.rs`: properties proved of all inputs.

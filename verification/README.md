# talky

The logic of Talky, a Discord bot, as a verified library, and the bot around it.

- `src/` (verified with Verus): the call queue that pairs text channels of
  different servers (`calling`), the decisions and answers of the moderation
  commands and the rounds of a purge (`moderation`), the ping answer (`misc`),
  log entries (`logger`), the start-up step of the configuration (`config`),
  and decimal rendering of numbers (`text`).
- `app/`: the bot itself: Discord commands through poise/serenity, files,
  the terminal, TOML (de)serialisation of the configuration.
- `tests/`: tests of the library on concrete values.

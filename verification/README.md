# rust_labs

A verified library (Verus) behind three small programs:

- `text`: building strings from repeated characters, padding and the
  reversed, underscore-grouped digits of a number.
- `arith`, `primes`, `chars`: overflow checks, trial-division primes,
  the digit-sum parity check, character checks with typed errors.
- `textops`, `trivia`, `episodes`: the decisions and reply texts of a
  Doctor Who trivia chat bot.

`app/` holds the programs themselves: printing, the Discord client,
the SQLite databases, the quotes file and the timer.

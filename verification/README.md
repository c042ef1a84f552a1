# rsrl_game

A mountain-car game served to learning agents over message channels, and a
bot that plays a card game against a table server.

- `src/` is the verified library (Verus):
  - `codec.rs`: the commands and connection states that travel between
    server and clients;
  - `mountain_car.rs`: the phase of a game (running or finished, with its
    step count) and the action table;
  - `engine.rs`: what the server does with a command it receives;
  - `client.rs`: how a client answers a game state the server reports;
  - `bot.rs`: the card bot's turn planning and its reactions to the table.
- `app/` is the program around it: the JSON messages, the car's dynamics,
  the server's loop, the client environment, the card bot's driver and
  logging.
- `tests/` runs the library on concrete values.

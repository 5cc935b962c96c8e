# stock_manager

A small stock-keeping service: items with a stock level, stock losses and
resupplies, and forecasts of daily usage and of the day on which an item's stock
reaches its minimum.

- `src/` is the verified library (Verus): the error types and how they read, the
  decisions taken on database answers, the stock rules, the forecast
  parameters and strategy, the exact per-weekday usage averages, the calendar
  arithmetic (through chrono), the answers given to refused requests, and the
  reading of the database port setting.
- `app/` is the program around it: the actix-web endpoints, the PostgreSQL
  queries through deadpool-postgres, the wire formats (serde), and the
  floating-point part of the forecast.
- `tests/` exercises the library with concrete values.

# payment_system

The verified core of a small payment service.

- `src/` is the library, written in Verus: currency-to-country rules,
  transfer validation and the cross-border transfer state machine,
  compliance screening, exchange-rate rules, the retry and rate-limit
  state machines, and token and password bookkeeping. Each public
  function carries a contract, and the laws that relate several functions
  are stated as public proof functions next to them.
- `tests/` runs the library on concrete values.
- `app/` is the HTTP server around it (axum, SQLite, floating-point money
  amounts, timers): it performs the I/O and hands the library plain values.

# pricefeed

A price-feed consumer SDK whose core is verified with Verus.

- `src/` is the verified library: validated feed ids, fixed-point prices and
  timestamped updates with their freshness rules, the retry policy and the
  decision taken after every attempt, the TTL cache kept in front of a
  transport, the interpretation of decoded GraphQL responses, and the error
  types with their stable codes.
- `app/` is the program around it: the asynchronous transport trait, the
  retry loop that awaits and sleeps, the caching transport behind a mutex,
  the HTTP transport and JSON decoding, floating-point views of prices, and
  the `pricefeed-watch` command-line example.
- `tests/` exercises the library on concrete values.

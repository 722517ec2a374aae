# turbocommerce

An e-commerce domain library and edge-deployment tooling, written in Verus:
the functions in `src/` carry `requires`/`ensures` contracts that Verus
proves. The few whose result rests on the clock or on chance (identifier
generation, timestamps) state what holds of every outcome, or nothing where
nothing does.

## Layout

- `src/money.rs`, `src/cart/`, `src/catalog/`, `src/checkout/`: money with
  checked arithmetic, carts and their pricing, products, categories and
  inventory, addresses, shipping, orders and the checkout flow.
- `src/search/`: search queries, filters rendered to SQL, pagination and facets.
- `src/http/`, `src/db/`, `src/framework/`: the HTTP client's request and
  response model, database values and rows, and the application framework's
  configuration, routes and HTML shell.
- `src/cli/`: the logic of the deployment command-line tool (configuration
  keys, validation, build and deploy plans, rollouts, rollbacks, formatting,
  project templates).
- `src/platform.rs`: the few calls into std and outside crates (the clock,
  entropy, case mapping, UTF-8 decoding, JSON values) with the contracts the
  rest of the library relies on.
- `app/`: the command-line program around the library: argument parsing,
  files, processes, terminal output, serde conversions, and the parts of the
  domain that compute with floating point.
- `tests/`: executable tests of the library.

Laws that relate several operations (for example, that removing a reserved
quantity of stock undoes the reservation, or that reading a configuration
key after setting it gives back the value set) are public proof functions
named `law_*`, next to the operations they speak of.

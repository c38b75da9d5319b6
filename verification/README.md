# rrhh

A small human-resources web service (workers, contracts, documents,
attendance) whose decision logic is a library verified with Verus.

- `src/` — the verified library:
  - `valor.rs`: the model of a JSON request body and its values;
  - `texto.rs`: decimal numerals, the DNI format, `LIKE` patterns, joins;
  - `middleware/jwt.rs`: session claims and issuing signed tokens;
  - `middleware/sa.rs`: the login check that guards the routes (verifying
    the token's signature, then its expiry), and the refusal body;
  - `modelos/`: the rows and request bodies that the logic reads;
  - `rutas/`: for each route, the checks on the request, the SQL text where
    the route builds one by hand, and the answer it gives for each outcome of
    the database.
- `app/` — the actix-web server: reads requests and the database (the
  parameterised queries live here), hands the library plain values, and
  sends what the library decides.
- `tests/` — tests of the library on concrete values.

The service expects `DATABASE_URL` and the column encryption key `KEY` in
the environment.

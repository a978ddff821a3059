# backend

The verified core of a service in which two users share tickets (small gifts
one gives the other, with a wish made on each), a diary with tags, and web
push notifications.

- `src/` is the library, verified with Verus. Each module states its
  behaviour in `requires`/`ensures` contracts over plain values; the `law_*`
  proof functions state the properties that hold across operations (the
  earliest gift dates a relation remembers stay right when tickets are created
  or deleted, every migration's `down` plan undoes its `up` plan, the
  registered migrations apply on a fresh database and revert to an empty one,
  and others).
- `tests/` exercises the library on concrete values.
- `app/` is the unverified outer layer: reading the environment, HTTP
  responses, JSON forms of the interface types, and running the migration
  plans with `sea-orm-migration`.

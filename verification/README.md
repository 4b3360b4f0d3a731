# wishlist

The backend of a wishlist tracker: it serves the latest wishlist snapshot, the
newest products, the archive of products no longer listed, and products by
category, from a MongoDB database.

- `src/` is the verified library: the records and how they are read from BSON
  documents (`model`, `document`, `object_key`), the decisions the handlers take
  between database round trips (`handler`, `newest`, `sources`), the query
  parameters (`query`) and the error replies (`error`, `reject`).
- `app/` is the server around it: the database calls, the warp routes, the
  serde copies of the records, logging and `main`.
- `tests/` runs the library on concrete documents.

# dotnettauritest

The verified core of a Guild Wars 2 companion app, written in Verus.

- `src/` is the library: what a search asks for (`search`), how the item
  list is fetched in batches (`batches`) and cached (`cache`), the OAuth2
  requests of signing in (`oauth`), the credential store bookkeeping
  (`security`), developer API keys and their scopes (`api_key`, `scopes`),
  and the text and byte encodings they share (`text`, `encoding`,
  `base64_text`).
- `app/` runs one search from the command line and holds the I/O: HTTP,
  the cache file, the configuration file, the credential store. Its async
  runtime is tokio, in place of the one the Tauri front end provided.
- `tests/` exercises the library on concrete values.

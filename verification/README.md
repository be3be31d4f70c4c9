# romsearch

A search index over a browsable ROM archive. The crawler walks the archive's
directory listings and sends one record per file to a Meilisearch index; a
web page searches that index.

- `src/` is the verified library: platform recognition in path names
  (`lexer`, `platform`), percent-decoding (`decode`), reading a listing page
  into files and subdirectories (`scrape`, `listing`), the crawler's retry
  rule and settings (`retry`, `crawl`), and the search page's state, query
  and result cells (`search`).
- `app/` holds the programs around it: the crawler (default) and the web
  page (`web` as the first argument), with the fetching, indexing and
  rendering that the library leaves to them.

# feedpress

Presses articles from curated RSS feeds into a newspaper edition typeset
with typst.

- `src/` is the verified library: the feed configuration and its
  maintenance (`config`), reading feeds (`feed`), publication dates and the
  age test (`clock`), choosing and numbering the articles of an edition and
  making its content and bibliography records (`press`), writing the
  bibliography (`biblio`), naming, listing and removing editions
  (`editions`), and the pressing schedule (`scheduler`).
- `app/` is the program around it: the command line, the configuration
  file, fetching feeds and articles, the web interface and the typesetter.
- `tests/` exercises the library on concrete values.

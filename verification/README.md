# texlab (verified core)

The syntax layer of a LaTeX language server, verified with Verus:

- `latex` — the LaTeX lexer (`lexer`), the recursive-descent parser that
  builds a lossless syntax tree (`parser`), the node and token kinds
  (`kind`, `token`) and typed views of the tree's nodes (`cst`).
- `bibtex` — the BibTeX node and token kinds and typed views of a BibTeX
  syntax tree.
- `tree`, `green`, `cst_support` — the syntax tree as plain values, its
  conversion to a rowan green tree, and the searches over children and
  descendants that the typed views use.
- `config` — the options that decide how documents are read.
- `scan`, `text`, `paths` — lines, separators and white space, with `str`'s
  semantics stated as spec functions, and the file system paths that are
  carried through.
- `file_list`, `latexmkrc`, `tex`, `build_log`, `references`, `fixture` —
  reading `.fls` file lists, `latexmk` reports and `ls-R` databases, the TeX
  distributions and how a document is compiled with each, build logs,
  reference kinds, and the documents of test fixtures.

`app/` holds what runs programs, touches files or sockets: compiling with a
TeX engine, asking `latexmk` for its directories, reading the file database
of a TeX Live tree, and the local socket between texlab processes.

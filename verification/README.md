# hightower

A Windows command-line tool that lists every running process and explains, in
plain language, what each one is -- flagging the unknown or out-of-place ones.
It is an educational aid, not an antivirus.

```sh
hightower scan --all          # explain every running process, worst first
hightower explain <name|pid>  # a plain-language write-up of one process
hightower --no-color ...      # never colour the output
```

## Layout

- `src/` -- the library, written in Verus and verified: the domain model, the
  risk rules (path masquerading, unsigned binary, unknown process), the
  classifier, the embedded known-process database and its case-insensitive
  lookup, the decisions behind a signature check and a process-snapshot
  entry, and the renderers: the plain table and the `explain` write-ups,
  whose exact text the contracts state, and the box-drawn coloured table,
  whose lines the contracts state in order (its column widths and escape
  sequences are left to comfy-table).
- `app/` -- the program around it: argument parsing, the Windows API calls
  (ToolHelp32 process listing, Authenticode checks), checking signatures in
  parallel, decoding the database JSON, and printing.
- `tests/` -- the tests, run against the compiled library.

Beyond each function's contract, `src/` proves the properties the tool relies
on: a verdict's risk is its worst finding and every rule's finding is
reported; lookups and directory comparisons ignore ASCII case; a process in
one of its expected directories is never flagged as masquerading; the plain
table's columns line up and carry no escape sequences; the rich table's PATH
cells fit the terminal; and ordering worst-first keeps every verdict and the
order within each risk level.

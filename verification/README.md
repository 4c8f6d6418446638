# mcp

A Model Context Protocol server (JSON-RPC over stdin/stdout) that offers
tools to read, write and edit files, to run git and PowerShell commands, and
to drive the Obsidian command line.

- `src/` is the verified library: `protocol` (request routing, tool names,
  confirmation steps), `catalog` (server identity and tool list), `args` (the
  arguments object of a call), `tools/` (what each tool runs and how it
  answers) and `text` (whitespace, search and replacement on text).
- `app/` is the program: it reads requests, asks the user through a dialog,
  runs commands and touches files, and writes the JSON answers.

# nitrogql

Checking, printing and command line logic of a GraphQL toolchain for TypeScript, written
in Verus with its behaviour proved against contracts.

- `src/ast`: the syntax tree of GraphQL documents, with positions and spans.
- `src/checker`: the checks of a type system document and of operation documents against
  it; each checker states, as a spec function, exactly which diagnostics it returns.
- `src/printer`: printing documents back to GraphQL text through a writer of chunks.
- `src/config`: the configuration file's model, where it is looked for, and how scalar
  types map to TypeScript types.
- `src/cli`: the decisions of the command line tool: stored files, commands, errors,
  generated file names, and what a run reports.
- `src/runtime`, `src/loader`: the registry of results awaited from Node.js, the task set
  and the log of the loader.
- `app/`: the program around the library: arguments, files, Node.js, and printing.
- `tests/`: tests of the library on concrete values.

# thrushc

The verified core of a compiler front and back end for the Thrush language.

`src/` holds the logic, each function with a contract that Verus proves:

- `types`, `tokens`, `typecheck`: the types of the language, their equality and
  promotion rules, token texts, and the checks on unary operators.
- `parser`, `structs`, `objects`, `preprocessor`: references and enumerations as the
  parser builds them, structure property chains, the parser's scoped tables of
  locals, globals and structures, and the collector of imported declarations.
- `linter`: the pass that reports declarations never used.
- `codegen`, `context`, `position`, `options`: the decisions of code generation
  (constants, unary and boolean operations, local stores, function declarations)
  and the scoped symbol tables of the code generators.
- `logging`: what each kind of console message is made of.

The maps of the tables are `ahash` maps, used through small wrappers whose
contracts are stated in `objects` and `context`.

`app/` holds what cannot be verified here: colouring and writing console messages
(`colored`), printing the linter's diagnostics, and building LLVM values
(`inkwell`) for integer constants, unary operations, function and assembler
function declarations and function bodies, from the plans of `codegen`. The
plans for expressions, boolean operations and locals have no LLVM side here: the
expression compiler they hand their work to is not part of this project's
sources.

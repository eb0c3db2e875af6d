# hivehq

HIVE is a lightweight native runtime for many small isolated processes: it
loads a `.hive` program, translates its bytecode to x86-64 machine code and
runs its processes on schedulers that share one stack each.

The library under `src/` is verified with Verus:

- `jit/`: the bytecode decoder (`parser.rs`) and the x86-64 translator
  (`x86_64/`), with the exact bytes each instruction translates to.
- `parser/`: the `.hive` file format: header, section table, string, function
  and symbol tables, and loading a whole file with its functions' code placed
  in the file's code sections.
- `runtime/`: executable memory bookkeeping (`load_exec.rs`), pid allocation
  (`manager.rs`), the scheduler's stack allocator, process states, requests
  and the decisions of the scheduler (`schedular/`).

`app/` is the program around it: reading the file, mapping executable memory,
switching contexts and performing the memory requests of processes.

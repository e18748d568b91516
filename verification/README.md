# subetha-ffi

The decisions behind a C ABI over memory-mapped primitives, verified with
Verus: which handle names which object, which token names which hold, what an
argument has to be, when a destroy may take an object out, and which code and
detail a failing call answers with.

- `src/` is the library. `error` has the codes and the detail a failing call
  leaves; `handle` the table of objects; `holds` the tokens for holds a process
  takes on shared state; `epoch` the words threads publish so that a destroy
  knows when every call has left; `lifetime` what `handle` and `epoch` promise
  together, over the steps that calls and destroys take in turn, within the two
  limits that module names. Each other module is one family of entry points:
  the arguments it accepts, in the order it reads them, and what its calls
  answer.
- `app/` is the C ABI itself: raw pointers, locks, thread-locals, and the calls
  on the primitives of `subetha_cxc`.
- `tests/` runs the library.

A function of the library that can refuse takes the calling thread's
`LastError`, so what a refusal leaves behind is part of its contract. What a
call can only learn outside - whether a pointer holds text, how an open went -
comes in as a `Result`.

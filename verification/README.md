# multigpu

Frame timing and same-frame dma-buf transfers between two GPUs, verified with Verus.

The library in `src/` decides; it makes no driver call and opens no file. Work that needs the
driver, a file descriptor or a fence is expressed as a state machine: it names the next call, takes
the call's answer and goes on. The code in `app/` makes the calls.

## The library

| module | contents |
| --- | --- |
| `histogram`, `names`, `timing` | fixed-bucket histograms, stages and counters, per-thread streams and scopes |
| `geometry`, `damage` | rectangles, exact disjoint damage for direct writes |
| `validate`, `modifiers`, `negotiation` | which buffers can be copied, which layouts can be imported |
| `setup`, `device` | initialization on exactly one render node |
| `bridge` | the engine: import and query caches, pool of driver objects |
| `copy`, `session`, `record` | one copy: its model, its execution, the commands it records |
| `resources`, `completion` | driver objects of a submission, its outcome and ownership |
| `transfer` | storage and lazy engine of one device pair |
| `error` | driver results and errors |
| `outside` | functions of std and `ash` that the proofs rest on |

What holds across calls is stated as public proof functions: in `histogram_laws`, `timing_laws`,
`copy_invariant`, `copy_progress`, `copy_stages` and `copy_laws`, and beside the functions that they
are about in the other modules.

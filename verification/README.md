# mdbx

The decisions behind MDBX environments, verified with Verus: how an environment is configured,
opened and closed, how its transactions begin, and what its statistics and its freelist say.

`src/` makes no call into the storage engine. It describes each call (`calls.rs`) and says what
follows from the answer:

- `environment.rs`: environments, their kinds, and the builder with its options
- `opening.rs`: opening an environment, call by call
- `manager.rs`, `transaction.rs`: transactions and the thread that runs those that write
- `stat.rs`, `freelist.rs`: statistics, environment information, free pages
- `util.rs`: values of a transaction, borrowed or copied
- `error.rs`, `flags.rs`, `word.rs`: status codes, option bits, machine words
- `laws.rs`: what holds of several operations together

`app/` performs the calls with libmdbx.

# session_storage

Session snapshots for a status line: what a session has cost, how many tokens
its conversation takes up, which models it has used, and the last input document
that was seen of it.

`src/` is the library, verified with Verus. It computes where snapshots are
stored, how a snapshot follows an input document and the transcript that the
document names, and which session files have expired.

| module       | holds                                                        |
|--------------|--------------------------------------------------------------|
| `json`       | JSON documents as plain values                               |
| `document`   | reading them with serde_json                                 |
| `sanitize`   | reducing an input document to what is worth keeping          |
| `input`      | what an input document says                                  |
| `cost`, `usd`| cost metrics and how they add up over restarts               |
| `transcript` | token usage from a transcript, read in installments          |
| `models`     | the models that a session has used                           |
| `session`    | the snapshot                                                 |
| `update`     | how a snapshot follows an input document                     |
| `config`, `manager` | configuration, paths and the storage manager          |
| `clock`, `text` | moments and text                                          |
| `laws`       | what holds across these operations                           |

Dollar amounts are doubles. The library holds and compares them by their bit
patterns; whoever calls it passes the function that adds them.

`app/` is the code around it: files, directories, the serialized form of a
snapshot and floating point addition.

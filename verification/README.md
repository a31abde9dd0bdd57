# omnifs-daemon

The host-native daemon of Omnifs: it brings declared providers, credentials,
mounts and filesystems into service, and answers on a local control socket.

`src/` is the library. It holds the decisions that the daemon takes, written in
Verus and proved against their contracts. It opens no file, socket or process:
where a decision needs something done (a container inspected, a record read, a
generation published), it is a state machine that asks, is told what came of it,
and asks again. Two effects are its own: it draws the random bytes of a new
instance's name, and it sends runtime events on a channel.

| module | decides |
| --- | --- |
| `startup` | how the process runs, recovers and stops |
| `control` | what a request is answered in each phase, and how uploads and repairs go |
| `progress` | what watchers of a revision or an action see |
| `provider_preparer` | which provider is compiled next |
| `provider_bundle` | which providers the daemon was built with |
| `generation_builder` | what a generation is made of, and with which credentials |
| `credential_codec`, `credential_document`, `auth_fingerprint` | what a credential is stored as, and whether it fits its provider |
| `serving_reconciler` | when a revision is published, retried or given up |
| `filesystem_supervisor` | when a filesystem is started, kept, replaced or stopped |
| `fs_runtime` | how a host process, a container or a guest is launched and torn down |

The `laws` modules, and the public proof functions beside the state
machines, state what holds over all of their runs.

`app/` does what the library asks for: sockets, files, processes, Docker, image
registries and timers. The loops that wait and select among events stand there, and
hand each event to the library to be judged. The services that it runs on are the traits of `app/ports.rs`.

`tests/` runs the library on concrete values.

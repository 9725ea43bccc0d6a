# polling

The logic of an `epoll` poller, verified with Verus.

- `src/` is the library. It holds the event flags, the events, the time limits,
  and the creation, the registrations, the waits and the teardown of a poller.
  It performs no system call: it says which one comes next (`Request`) and takes
  the answer (`Reply`). `setup_laws` and `wait_laws` state what holds of every
  creation and of every wait, whatever the kernel answers. `kernel_laws` states
  what the requests come to where the kernel answers them as documented.
- `app/` performs the system calls with `rustix` and offers the poller and the
  event list in their usual form.
- `tests/` runs the library against scripted answers and against the kernel.

# rustpython_vm: the `socket` and `sys` modules, verified

`src/` is a Verus library holding what the `socket` and `sys` builtin
modules of a Python virtual machine decide:

- `args`: the Python values handed to builtins, and the check of their
  number and types that every builtin makes first.
- `pyint`: conversions of Python ints to machine integers (through
  `num_traits`).
- `text`: the decimal text of an integer.
- `socket`: socket objects and their connection state. Each method that
  needs the network is split into a function that names the work to do and,
  where something follows the work, a function that takes its outcome.
- `socket_laws`: what holds of the socket methods taken together.
- `sysmodule`: the contents of `sys`, and `_getframe`, `getrefcount`,
  `getsizeof`.

`app/` does the operating-system work: real TCP listeners and streams, the
process's arguments and `PYTHONPATH`.

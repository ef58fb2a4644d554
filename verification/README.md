# 海绵酱控制台 (YunZai console)

A controller for a YunZai QQ bot installation: Redis, the TRSS Yunzai
backend and the NapCat protocol side. It starts them in strict order
(Redis, then Yunzai once port 2536 listens, then NapCat once port 6099
listens), stops NapCat, QQ and Yunzai while leaving Redis running, reports
their status, follows their logs and runs the first-run setup wizard.

## Layout

- `src/` — the verified library. Every decision is made here and proved
  against its contract with Verus: the configuration and its defaults, the
  plugin index, process matching, status reports, log selection and tailing,
  the installation check, and the long-running jobs as state machines
  (`service`: start/stop; `setup`: the wizard and single-plugin installs;
  `task`: git clone, npm install, download-and-unpack; `bootstrap`: unpacking
  NapCat). A machine returns the next operation for its host to perform
  (run a program, probe a port, list processes, ...) and takes the host's
  report as the next event; the laws about the machines (start order, Redis
  spared on stop, wizard progress) are public proof functions beside them.
- `app/` — the host: a console program that performs those operations on
  the real machine (processes via sysinfo, files, ports, log watching via
  notify), stores the configuration as JSON and prints events as JSON lines.
- `tests/` — tests of the library, driving the machines with simulated hosts.

# atsisbroken

A local-first job-application autofill: it classifies the fields of an
application form, proposes or fills values from the user's own profile,
learns from each accept or reject, and drives a Chromium-family browser
over its debug port.

- `src/` is the library, verified with Verus: the field classifier, the
  fill policy per mode and the run bookkeeping, the feedback log and what
  is learned from it, the resume reader, URL parsing and the built-in
  pages, the native-messaging frame, browser detection, the GitHub
  inventory, and the small parsers around them. Each public function
  states its result in `ensures`; the laws that relate several functions
  are public proof functions.
- `tests/` runs the library on concrete values.
- `app/` is the command-line program around it: argument parsing, files,
  the network, the terminal and the browser session.

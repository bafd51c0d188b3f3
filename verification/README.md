# taskmgr

A Windows Task Manager: applications, processes, performance, networking and users
pages in one window, with a tray icon, always-on-top and title-less modes, and
English, French and Portuguese texts.

The decisions of the program are a library verified with Verus (`src/`): what every
menu command does to the options, how the rows of each page are merged, refreshed,
sorted and shown, how list views are brought up to date, the layout
arithmetic of every page, the text formats, the localized strings, and the keyboard
shortcuts. Each public function states its result in its contract, and the laws that
span functions (toggles undone by a second toggle, tab switching round trips, stable
sorting, image-list renumbering, rows kept by refresh pass) are proof functions.

`app/` is the Win32 shell around it: window and dialog procedures, system queries
(processes, windows, sessions, adapters, performance counters), drawing, and the few
computations that need floating point. It calls the library for every decision.

`tests/` exercises the library on concrete values.

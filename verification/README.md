# Kid Internet Lock

A Windows tray program that blocks the internet on a per-weekday bedtime
schedule, with a read-only viewer for kids. The decisions of the program are
a library verified with Verus; the Windows parts are ordinary Rust around it.

## Layout

- `src/` — the verified library:
  - `config` — the configuration and its weekly schedule (two block slots per
    day, unchecked days, midnight-crossing slots), password storage;
  - `schedule` — which minutes of a day are blocked and the free ranges;
  - `scheduler` — the scheduler state: what blocks now, when it ends, the
    next block, temporary allows and manual overrides, and the two halves of
    a sync with the firewall (`plan_sync`, `complete_sync`);
  - `viewer`, `wallpaper` — the kid viewer's and the schedule image's texts
    and bars;
  - `menu`, `settings` — the tray menu and the settings window's input rules;
  - `tasks`, `guard`, `firewall` — Task Scheduler definitions, launch modes
    and command lines, `netsh` output;
  - `password`, `clock` — SHA-256 hashing (`sha2`, `hex`) and local time
    (`chrono`) behind small trusted wrappers;
  - `text`, `encoding` — formatting, parsing and UTF-16;
  - `lang`, `lang_ko`, `texts` — the English and Korean UI texts, and the
    texts the library builds in the chosen language;
  - `laws` — properties of the library as a whole.
- `app/` — the program: Win32 windows and dialogs, the tray loop, the guard
  service and watchdog, `netsh` and `schtasks` calls, `config.json`. The UI
  is Korean when the user's Windows locale is a `ko` locale, else English.
- `tests/` — tests of the library.

# harvux

A desktop client for the Harvest time-tracking service. `src/` is the verified
library, checked with Verus; `app/` is the GTK4/libadwaita program around it.

- `src/text.rs`: decimal and zero-padded integer text, entry lengths, the
  day's total and the running clock.
- `src/models.rs`: the service's records (lengths of time in whole seconds).
- `src/client.rs`: the HTTP client, its default headers and its URLs.
- `src/api.rs`: method, path and query of each API call, and the message each
  failure is reported with.
- `src/clock.rs`: clock readings and the whole seconds between two of them.
- `src/credentials.rs`: keyring labels and attributes, and how secrets read
  back become credentials.
- `src/timer.rs`: the timer page's state machine: start, stop, quick restart,
  picking an entry from the list, today's entries and their total.
- `src/icon.rs`: the tray's clock icon.
- `src/ui.rs`: window activation and the preferences dialog's statuses.

`app/` sends the requests (reqwest, tokio), reads and writes the keyring
(oo7), draws the windows (GTK4, libadwaita) and runs the tray icon (ksni).

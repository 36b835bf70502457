# rocknix-keyboard

The verified core of an on-screen keyboard for Wayland handhelds that types
through the `zwp_virtual_keyboard_v1` protocol.

`src/` is a Verus library:

- `backend` — modifier state and its XKB mask, the requests a keyboard backend
  carries out, and the `KeyboardBackend` trait that performs them.
- `keycodes` — Linux event codes, the US-layout character table, and which
  characters need Shift.
- `layout` — the letter, number and symbol pages, key labels and styles, and
  the window width that fits a page.
- `state` — the visible page, the shift toggle and the title-bar drag gesture.
- `actions` — what each key action asks of the backend (Shift held for
  upper-case letters and shifted symbols, and restored afterwards).
- `injector` — the backend engine: compositor events for each request, and
  key repeat after a 400 ms delay every 80 ms.
- `keymap` — the temporary XKB keymap that types a character without a key.
- `registry` — picking the seat and virtual-keyboard manager globals.

`tests/` runs the library on concrete inputs. `app/` holds the GPUI window,
the Wayland connection, keymap upload and the program's `main`.

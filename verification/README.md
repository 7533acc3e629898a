# xaskpass

A passphrase dialog for X11. The library in `src/` holds what the dialog does, with contracts
that Verus proves; the program in `app/` draws it, talks to the X server and waits for events.

| Module | What it holds |
| --- | --- |
| `secret` | the passphrase in locked memory, and the line that is written in the end |
| `config` | settings, and colours as they are written in the configuration file |
| `dialog` | buttons, keys, the mouse, transparency and what has to be painted |
| `dialog::indicator` | the ring, the row and the text that show that something was typed |
| `dialog::layout` | which parts an arrangement has, wrapping and centring |
| `backbuffer` | when the picture is painted and handed over to the server |
| `event` | what comes of each event from the server |
| `window` | the kind of pixels of the window, and what the window manager is told |
| `keyboard` | composing, the direction of the language, the locale |
| `errors`, `text` | messages, and characters as bytes |

Calls into other crates stand behind small functions whose contracts are trusted: locked memory
(`secstr`), wiping (`zeroize`), hexadecimal digits (`hex`), shuffling (`rand`) and the levels of
the log (`stderrlog`).

The library holds no floating point numbers. Positions, sizes and the turning of the ring are
computed in `app/`; it tells the library what was hit, and how many elements fit.

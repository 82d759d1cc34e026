# Secret Tunnel

The logic of a desktop application that keeps an SSH tunnel open and offers it
as a local SOCKS5 proxy, written in Rust and verified with Verus.

- `src/` is the library. Its functions state in their contracts what they return
  or change, and Verus proves it. The one that reads the clock states nothing: any
  time may come back.
  - `text`, `unicode`, `address`: texts, letter case and encodings, IP addresses.
  - `profile`, `selection`, `config`, `config_file`, `json`: server and proxy
    profiles, the edits that a user can make and what they keep true, and the
    file in which the profiles are kept.
  - `socks`, `relay`, `counters`: the conversation with a SOCKS5 client, and the
    bytes that are carried for it.
  - `embedded`, `host_key`: connecting with the embedded SSH engine, and which
    host keys are trusted.
  - `command`, `nettop`, `ip_info`: what `ssh`, `curl` and `nettop` are told, and
    what is made of what they report.
  - `startup`, `launch`, `runtime`, `status`, `control`, `log`, `clock`: starting, watching
    and stopping a tunnel, and what the user is shown of it.
- `tests/` runs the library on concrete values.
- `app/` is the application around it: windows, files, sockets, processes and
  the SSH protocol itself. Its windows need `tauri` with the `tauri.conf.json` and
  the web pages of a desktop build; `Cargo.toml` is that of the library and does
  not list it, since `tauri` brings more packages than all the rest together.

What the library takes on trust stands in `unicode`, `json`, `clock` and at the
head of `text`: the behaviour of the functions of the standard library and of
`serde_json` that it calls.

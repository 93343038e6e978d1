# rdp2web

A gateway between a browser and an RDP server. The browser talks to the gateway
over a WebSocket; the gateway keeps the RDP credentials, logs in to GNOME Remote
Desktop and sends the H.264 pictures on to the browser as they come.

## Layout

- `src/` is the library, written in Verus: its functions carry contracts that
  are proved. The few calls into other crates stand behind small functions whose
  contracts are believed, each with a comment that says what it claims. The
  library decides and computes; it does no input or output.
  - `h264`, `progressive`: video packets and their framing
  - `input`, `scancode`: browser events as RDP input
  - `config`, `text`: the configuration, from the values of variables
  - `web`, `tls`, `egfx`, `connector`, `session`, `lifecycle`: what the server, the graphics
    channel and the RDP session do next
  - `*_laws`: what holds across several functions
- `app/` is the program around it: sockets, files, the environment, the RDP
  protocol stack.
- `tests/` runs the library on concrete values.

## Configuration

The program reads `.env`, or the file that `RDP_ENV_FILE` names:

```dotenv
RDP_HOST=127.0.0.1
RDP_PORT=3389
RDP_USER=your-user
RDP_PASSWORD=your-password
UI_PORT=8081
```

Optional are `UI_HOST` (default `0.0.0.0`), `UI_TLS_CERT` and `UI_TLS_KEY`
(default `certs/rdp2web.crt` and `certs/rdp2web.key`), `RDP_DOMAIN`, `RDP_MODE`
(`shared` or `session`, default `shared`), and `RDP_WIDTH` and `RDP_HEIGHT`
(default 1280 and 720, at least 200 each). The page is served from
`static/index.html`.

The web server speaks HTTPS only and has no login of its own: bind it to a
trusted interface.

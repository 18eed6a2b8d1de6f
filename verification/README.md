# Dynamic Launcher portal

A portal by which sandboxed applications install launchers: desktop files that start an application
again with other arguments, or open a web application. The service speaks Varlink.

- `src/` is the library: the rules of the portal, verified with Verus. Which names and options are
  accepted, what install tokens are worth, how a desktop entry is rewritten, which files are written
  and removed, and what is answered.
- `tests/` runs the library on examples.
- `app/` is the service around it: the socket, the dialog, the files and the icon validator.

## Modules

| module | what it is about |
| --- | --- |
| `names` | application names and desktop file ids |
| `options` | options of a call, and which of them PrepareInstall accepts |
| `icon` | validating, storing and recognising icons |
| `desktop_entry` | checking and rewriting desktop entries |
| `launcher` | install tokens, and the methods that give them out and spend them |
| `dialog` | the dialog of PrepareInstall |
| `install`, `uninstall` | the files of a launcher |
| `lookup` | reading and starting installed launchers |
| `flatpak` | who is calling |
| `long_request` | taking back a request that takes long |
| `interface` | replies and errors |
| `path`, `text` | paths and strings |

## Running

The service takes its socket, named `varlink`, from systemd socket activation, for instance with
`systemd-socket-activate`.

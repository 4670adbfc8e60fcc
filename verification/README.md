# wjmclock

A HamClock-style station display: a world map with the day/night
terminator, clocks, callsign banners and an HF propagation panel.

The rules of the program live in a library that is verified with Verus
(`src/`); the window, painting, networking and file handling live in a thin
program around it (`app/`).

## Library (`src/`)

| module        | what it holds |
|---------------|---------------|
| `color`       | `#rgb` / `#rrggbb` / `#rrggbbaa` color parsing, premultiplied bytes |
| `maidenhead`  | grid-locator decoding to exact cell centres (1/480 degree units) |
| `bands`       | HF band table and the day/night band-condition heuristic |
| `kc2g`        | picking the forecast nearest in time |
| `noaa`        | picking the latest sample that carries a value |
| `snapshot`    | what a fetch round leaves in the propagation snapshot |
| `clock`       | clock settings, time and date lines |
| `config`      | marker styles, time-zone lookup, config lookup order, CLI overrides, defaults |
| `elements`    | element types, map projection check, propagation panel text |
| `slots`       | placing elements on screen, window titles, toggle keys |
| `coastline`   | flattening GeoJSON-shaped geometry into polylines |
| `mesh`        | triangle indices of the map's shading grid |
| `textures`    | texture names and PNG decoding |
| `text`        | white space, trimming, letter case, decimal formatting |

Each public function states its result in `ensures` over spec functions;
the `law_*` proof functions state properties that span several calls
(case-insensitive parsing, nested locator cells, monotone band ratings, a
single central element, and so on).

## Program (`app/`)

`app/main.rs` parses the command line, loads the TOML config and runs the
eframe window. Bundled assets (`assets/coastline.geojson`,
`assets/textures/*.png`) are read from the working directory.

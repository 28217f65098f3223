# trading_telemetry

A keyboard-driven trading terminal: a Ratatui client that shows charts, watchlists,
indicator overlays and a paper-trading desk, fed by a market engine over HTTP and
WebSocket. The client's state machine and its rules are a library verified with Verus.

## Layout

| Path | Role |
|------|------|
| `src/calendar.rs` | Proleptic Gregorian calendar, America/New_York offsets, the 09:30 cash open |
| `src/timeframe.rs` | The nine product timeframes, bar intervals, forming-bar countdown |
| `src/feed_clock.rs` | New York wall clock and compact feed delay (tzdata via `chrono-tz`) |
| `src/text.rs` | Trimming, ASCII case, decimal rendering over `Seq<char>` |
| `src/glyph.rs` | Candle and braille glyph classes |
| `src/model.rs` | Engine records (generic over the real-number type) and default configs |
| `src/endpoint.rs` | Engine base URL and routes (`url`), engine error details (`serde_json`) |
| `src/labels.rs` | Status marks of indicator rows |
| `src/app.rs`, `src/app/` | Workspace state: charts, watchlists, indicator panel, pins, paper desk, IPC events, armed engine calls |
| `src/keys.rs` | Key dispatch: state and key to next state and remaining real-valued work |
| `tests/` | Scenario and law tests on concrete values |
| `app/` | Terminal program: tokio event loop, HTTP/WebSocket I/O, serde wire copies, drawing |

Every public function of the library states in its `ensures` what it returns or how it
changes the state, over spec functions of the model; real numbers pass through the library as
an opaque type parameter and are handled by the program.

Run the engine, then the program; `ENGINE_URL` overrides `http://127.0.0.1:8765`.

# Island Rampage game rules

The rules of the Island Rampage open-world game as a verified Verus library:
money (wallet, shops, ATM, casino, enterprises, properties, robberies, stock
market), story missions (phases, objectives, ratings, checkpoints, triggers,
NPCs), side jobs (deliveries, taxi, races, assassination, escort, chase,
photography), dialogue trees, cutscenes and destructible objects.

Every quantity is an integer with a fixed unit:

| quantity                         | unit                              |
|----------------------------------|-----------------------------------|
| positions, distances, sizes      | centimetres                       |
| durations, play time             | milliseconds                      |
| time of day                      | hundredths of an hour (2400 = 24h)|
| stock prices                     | cents                             |
| multipliers, bonuses             | percent                           |
| ratios, progress, opacity        | thousandths                       |
| fields of view                   | hundredths of a degree            |

Layout:

- `src/` — the library, every function with a contract proved by Verus.
  `random.rs` holds the one call into `rand`; `mission/dialogue_systems.rs`
  the one call into `str::replace`.
- `tests/` — tests of the library.
- `app/` — the program around it: data loading, the cutscene camera's
  floating-point easing, debris physics and save-file forms.

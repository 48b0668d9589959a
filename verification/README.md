# my_bevy_game

The rules of a small top-down action game, verified with Verus, and the
Bevy game that plays by them.

- `src/` is the verified library: game timers such as cooldowns and the spawn
  interval (`timer`), the tile map, what blocks walking and where bullets
  leave the map (`world`), character animation (`animation`), player steering
  and the player's gun (`player`), enemy behaviour and waves (`enemy`), aiming and the gun's pose
  (`weapon`), hit selection and defeat bookkeeping (`combat`), score, game
  state and the saved best score (`game_state`), and the heads-up display
  text and restart (`game_ui`).
- `app/` is the Bevy program: it reads input, time and positions, does the
  floating-point geometry, and hands plain values to the library.
- `tests/` exercises the library on concrete values.

# hearthfield

The rules of the Hearthfield farming game, written in Verus and proved
against their specifications.

- `src/` is the verified library: the calendar and planner, tools and their
  upgrades, the inventory, chests, shops and crafting, relationships, map
  transitions and the world map, menus and their state machines, save-slot
  bookkeeping, HUD and screen texts, player actions, tool sprites and the
  sprite animation frames, the minimap picture and the cutscene steps. Laws
  that span several operations are stated as `law_*` proof functions beside
  the code they speak of.
- `tests/` exercises the library on concrete values.
- `app/` holds what the library leaves to the application: save files on
  disk (through serde and serde_json), launching the companion games, and
  the timing, motion and other fractional quantities.

# NeuroHack

A horror roguelike for the terminal, narrated by a local language model
(Ollama) acting as game master, with D&D 5e SRD rules underneath.

- `src/` is the rules library, verified with Verus: dice, abilities,
  weapons, armor, monsters, spells, conditions and combat; the dungeon
  map and its generator; the message log; input modes and the cursor;
  localization; the text of the interface panels and tooltips; the
  prompts sent to the game master and the shapes of its replies.
- `app/` is the program around it: the ECS world, the terminal, the
  HTTP client and the background worker that talks to the model, and
  the floating-point parts (field of view, health fractions).
- `tests/` exercises the library from outside.

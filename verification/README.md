# tedium

The grid logic of a small top-down game: a player walks on a 32 × 32 grid to
the active point of interest, walls block the way and the view, and the
player sees the tiles that recursive shadowcasting reaches.

- `src/` is the verified library. `utils` converts between grid cells, world
  points and tile indices; `field_of_view` holds the octant geometry, the
  decision taken at each tile of a scan and the record of the tiles seen;
  `systems` turns one frame of input into events and events into changes of
  the game state (points of interest, walls, paths, the light settings);
  `collections` holds the hash collections the field of view keeps its tiles
  in. `field_of_view_2` and `visibility` are two earlier takes on the field of
  view.
- `app/` is the Bevy program around it: the ECS systems, rendering, the LDtk
  map, and the parts that compute in floating point (the slopes of the field
  of view, the camera).
- `tests/` runs the library on concrete values.

# bevyski

Verified decoders and rules for the data of the classic Macintosh skiing
game MacSki, written in Verus.

- `src/` is the verified library:
  - `resfork`, `macski`: resource forks (header, type list, reference
    lists, resource data) and the game's resource types.
  - `bytes`, `parse`, `records`, `fields`, `shared`, `region`, `packbits`,
    `pixdata`, `copybits`: the QuickDraw structures of PICT pictures and
    their run-length encodings.
  - `v1`, `v2`: the opcodes of version 1 and version 2 pictures.
  - `drawing_context`, `render`, `raster`, `pict`: drawing the opcodes onto
    an RGBA canvas; `pict::decode_pict_bytes_to_image` decodes a whole
    picture.
  - `course_file`, `text`, `convert`: legacy course files, course names and
    slugs, and the hill art codes of a course's resource sidecar.
  - `game`: the integer rules of the game (steering, collisions, the rescue
    dog).
- `tests/` exercises the library on concrete inputs.
- `app/` is the command-line tool: resource extraction to PNG, course
  conversion to JSON, resource listing, random courses, and a text run
  of the crash and rescue-dog rules.

# parang

Text extraction building blocks for PDF documents, verified with Verus.

`src/` is the verified library:

- `cmap_lexer`, `cmap_parser`, `cmap`, `cmap_manager` — CMap streams: tokens,
  the sections they hold (`codespacerange`, `bfchar`, `bfrange`, `cidchar`,
  `cidrange`) and the character maps built from them.
- `glyph_list`, `glyph_data`, `encoding`, `predefined`, `dictionary` — glyph
  names and the Adobe Glyph List, simple font encodings and `/Differences`.
- `font`, `widths` — decoding character codes of simple, Type3 and composite
  fonts, and glyph widths.
- `document` — documents read with `lopdf`: pages and their content bytes.
- `content_parser`, `engine`, `basic_text` — content stream operations,
  inline images, NUL padding, marked content with `/ActualText`, and the
  text of shown strings.
- `normalizer`, `cos_helpers`, `text_state` — text normalization, PDF names
  and text strings, rendering modes.
- `laws` — properties stated over the specifications above.
- `tables`, `text_std` — the trusted wrappers around `hashbrown`,
  `compact_str` and the standard library's text conversions.

`app/` is the command-line program: reading files with `lopdf`, fonts from
their dictionaries, the `f32` page geometry and the layout of glyphs into
lines and words. The Adobe Glyph List is the library's `glyph_data`; the
extra glyph names, the ZapfDingbats list and the predefined CMaps are read
at start-up from the directory named by `PARANG_DATA_DIR` (default `data`):
`additional.txt`, `zapfdingbats.txt` and `cmap/*`.

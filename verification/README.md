# imagetowebp

Converts blog images (JPEG, PNG, BMP, TIFF, WebP) to WebP, in bulk.

The library under `src/` holds the decisions, each with a contract checked
by Verus:

- `config`: the settings and their validation;
- `cli`: command-line options and the answers of the interactive wizard,
  turned into settings (comma-separated input lists, blank output directory);
- `text`: Unicode whitespace, trimming and comma splitting;
- `paths`: the `std::path` operations the converter relies on, which image
  files are supported, and duplicate-free ordering of found files;
- `converter`: conversion records, saved bytes, where a WebP file goes, and
  which encoding the settings ask for;
- `imaging`: the longest-side limit applied to a decoded image;
- `job`: converting one file as a sequence of steps, each asking the program
  for one piece of file-system or codec work, with proofs that the steps
  produce the intended outcome and never overwrite an existing file unless
  asked to;
- `processor`: the totals of a batch, independent of the order in which the
  files were converted.

`app/` is the program: argument parsing, the wizard's prompts, walking
directories, reading and writing files, decoding and encoding images, the
parallel batch and the printed summary.

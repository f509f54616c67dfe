# slimloader

A light-weight bootloader with a fail-safe state journal, and the tool that
prepares key material and signs images for it, written in Verus.

`src/` is the verified library:

* `boot` — the boot flow: which slot to boot from the latest journal entry,
  what to record before and after an attempt, and when to give up.
* `imxrt` — booting an image on the i.MX RT600: the checks on the image vector
  table, the copy, the RKTH shadow registers and authentication, as a step
  function from the outcome of the last operation to the next one; and the
  minimal example bootloader.
* `mcxa` — MCXA5xx ROM status codes and their mapping to boot errors, image
  manifests, and copying slot B into slot A page by page.
* `rom` — registers that exist both as OTP fuses and as shadow registers.
* `tool` — the signing tool's logic: hexadecimal text, the RKTH and the
  certificate tooling's output, reading and rewriting ELF files (through the
  `object` crate), producing a flat binary image from ELF segments, the checks
  on the image and on the produced Master Boot Image, the steps of the sign command, the
  arguments handed to the vendor tools, and the ordered operations that prepare a target to
  run an image.
* `bytes` — little-endian words and bytes.

`app/` is the command-line tool around the library: argument parsing, the
configuration file, running the vendor tools and file I/O.

`tests/` exercises the library on concrete values.

# kernel

The logic of a small x86-64 operating system kernel, written in Verus and
proved against its contracts: page tables and the APIC, the PS/2 and RTC
devices, PCI configuration, the USB stack (descriptors, xHCI rings and
contexts, hub, HID, XInput and audio class drivers), HID report parsing and
decoding, a RAM file system with its path handling, SMBIOS tables, the
Haribote OS application runtime, the emergency console, the screen rotation,
image loading and the shell's command line.

- `src/` is the verified library; each public function states what it returns
  or changes, and the laws that relate several functions are public proof
  functions beside them.
- `tests/` runs the library on concrete values.
- `app/` is the shell on a host: standard input and output, files of the host
  handed to the loaders.

Image decoding is done by the `png-decoder`, `zune-jpeg` and `rapid-qoi`
crates, each behind one wrapper in `src/io/image.rs` whose contract is stated
there, and `miniz_oxide` inflates PNG image data for the check in
`src/io/png.rs`; everything else is proved. A PNG file is handed to its
decoder only once that check has found every read the decoder makes inside
the file (transparency chunk, rows, palette entries); other PNG files are
invalid data. Nothing here shows that the JPEG decoder returns on every
malformed file: its own documentation allows it to panic. There is no decoder
for MPIC images, so the loader reports them as not supported.

The activity monitor's figures (the ring of load samples, the meters and the
size figures) are in `src/monitor.rs` and `src/shell.rs`; drawing them is left
to the host.

# vidcapview

A small Windows viewer for video-capture devices: it lists the devices,
asks which one to use, and shows its video in a window; Alt+Enter toggles
full screen, and `--debug` lists the formats the device offers.

The crate is split in two:

- `src/` is the verified library, in Verus. It holds every decision and
  every piece of text the viewer computes: reading the user's choice of
  device (`selection`), the window's message handling and full-screen state
  (`window`), the names and values printed for media attributes (`media`,
  `guid_names`), decoding string attributes (`string_attribute`), and the
  application callbacks (`app`).
- `app/` is the Windows program around it: COM and WinRT calls, the window
  procedure, console input and output.

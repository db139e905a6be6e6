# translate

TRANSLATE is a mix-translation checking audio plugin. This crate is its
verified core, written in Verus:

- `src/preset.rs`: the bundled presets, their categories, display names and
  impulse-response file names.
- `src/quick_cycle.rs`: the Quick Cycle state shared by editor and audio side
  (ordered, switchable cycle list; pending transport request; reported status).
- `src/processor.rs`: the control side of the processor: stepping through the
  cycle list, timed cycling, return to reference, and the preset crossfade.
- `src/workflow.rs`: A/B compare snapshots and the status and meter readings.
- `src/ir.rs`: the impulse-response bank (decoded responses, the responses
  prepared for the host sample rate, lookup by preset).
- `src/wav.rs`: WAV header checks (through `hound`) and the split of
  interleaved samples into the two channels of a response.
- `src/ui.rs`: editor text.

`app/` holds the plugin shell around it: NIH-plug host integration, the egui
editor, and the floating-point signal processing (convolution, shelving
filters, resampling, mixing).

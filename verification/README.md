# Thermal Lab

The verified core of a Windows tray application that measures what capping the CPU turbo
does to temperatures and power draw, and switches the cap live.

- `src/` is the library, written in Verus: the sensor pipeline (quantities, the reading
  in which the first provider served wins, the providers' decisions, the sampling cycle),
  the power-scheme commands and their parsing, the scheduled task of the automatic start,
  the third-party tools' states, the capability model, the phase counters, the panel's
  open/close rules and the tray's texts.
- `tests/` exercises the library on concrete values.
- `app/` is the Windows application around it: Tauri commands, WMI and shared-memory
  access, processes, registry, and the floating-point work (unit conversions, averages,
  window placement, icon tinting) the library leaves out.

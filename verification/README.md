# ai_aim_coach

The decision logic of a Windows aim-coaching client, verified with Verus.

- `src/` — the verified library: game display-mode detection
  (`capture::detector`), frame acquisition outcomes and frame counting
  (`capture::dxgi`), raw mouse input handling and the delta buffer
  (`input::raw_input`), FFmpeg encoder probing, command lines and outcomes
  (`ffmpeg::pipe`), audit records (`audit`), the helper process's arguments
  (`sidecar`), decimal rendering (`text`) and Windows result helpers (`win`).
  Each step that follows a system call is a function from the call's answer
  to the next action, with an exact contract; proof functions state the
  properties of whole runs (detection, encoder probing, raw input handling,
  decimal round trip).
- `app/` — the Windows and process side: Win32/DXGI/WinRT calls, the FFmpeg
  subprocess, the collector thread, `tracing` output and the Tauri shell. It
  drives the library's step functions and performs the actions they return.
- `tests/` — tests of the library on concrete values.

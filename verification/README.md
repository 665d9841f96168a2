# reverie

Verified core of the Reverie integration for the Zed editor.

- `src/` is the library, checked by Verus: event categories and the
  category filter, the Dream Inspector feed (bounded event buffer, cursor,
  poll decisions, status line), request URIs and JSON bodies for the
  reverie daemon, how each daemon reply is settled, prompt augmentation with
  retrieved memory, the planner's transcript and its hand-off channel, the
  per-session run slot, and the text shown for planner steps.
- `app/` holds what lives inside Zed: GPUI entities and rendering, the HTTP
  transport, the agent-protocol servers and connections, and the planner
  glue. It calls the library for every decision.
- `tests/` exercises the library from outside.

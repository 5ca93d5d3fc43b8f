# iced_m3

The decision logic of a set of Material 3 components for iced 0.14, verified
with Verus.

- `src/` is the verified library: calendar dates and their ISO text, date
  selection and the date picker's validation, headlines, paging and grids,
  keyboard movement in the calendar, Tab and arrow-key focus traversal, menu
  type-ahead and popup dismissal, dialog dismissal and stacking, the press
  gesture of buttons and selection controls, modal input suspension, count
  badges, and the state machine of the desktop sample ("Northstar Studio").
  Each public function states its result in `requires`/`ensures`; the `law_*`
  proof functions state properties that span several calls.
- `tests/` exercises the library on concrete values.
- `app/` is the iced side: converting toolkit events into the library's
  inputs, holding application callbacks, building widgets from the library's
  decisions (a date picker with calendar keys, a button, a checkbox, a select
  menu, a dialog stack, a Tab focus scope, a carousel, titles and badges, all
  of whose input handling is the library's), and running the sample window. Drawing, animation and layout
  geometry (all floating point) live there too.

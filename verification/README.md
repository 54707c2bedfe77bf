# star_map

A star finder: the user enters a location, a date and time, and the
horizontal coordinates (altitude and azimuth) of an observed star; the program
works out the equatorial coordinates and asks the SIMBAD catalogue for the
brightest and the closest star near them.

- `src/` is the verified library (Verus):
  - `calendar` converts the local observation time to UTC: the valid
    Gregorian date and time of the same instant, with out-of-range fields
    counting on from the fields above them;
  - `epoch` turns the converted time into a UNIX timestamp with chrono;
  - `fields` reads the integer fields of the form;
  - `form` holds the text of the form and what each window event does to it;
  - `lookup` decides the order of the look-up steps (timestamp, location,
    equatorial coordinates, catalogue), what each is given, and what is kept
    when one fails;
  - `stars` cuts a catalogue row into the fields shown for a star.
- `app/` is the program around it: the iced window, the HTTP requests to the
  weather, time zone and catalogue services, and the floating-point astronomy
  (Julian day, sidereal time, precession to J2000).  Run with
  `--fixed-observation` it converts one fixed observation and prints the
  catalogue answer instead of opening the window.
- `tests/` exercises the library.

# iced_button

A verified library for two pieces of a GUI toolkit: font descriptions and
the button widget's logic.

- `src/font.rs`: fonts (family, weight, stretch, style, tracking), the
  equality and hashing of tracking, and the cache that interns family names.
- `src/button.rs`: the button builder, its reaction to pointer and touch
  input (press, release, capture, publish), its status, pointer and
  appearance, and how backgrounds blend between styles.
- `src/animation.rs`: the control animation (150 ms, CSS
  `cubic-bezier(0.2, 0, 0.2, 1)`), with time in nanoseconds and progress in
  fixed point.
- `app/lib.rs`: the process-wide name cache, the clock, and the
  floating-point arithmetic of styles.

Every `f32` that the library stores is carried as its IEEE-754 bit pattern
(`f32::to_bits`), so the verified code never computes with floats.

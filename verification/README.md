# kestrel_rs

The verified core of the kestrel browser shell, which embeds Servo in a winit
window and draws an Iced URL bar with wgpu.

- `src/` (Verus): the null clipboard; the URL bar and window-event state
  machine with its navigation decisions (`shell`), URL parsing through the
  `url` crate (`weburl`); the choice of surface format and the sizing of the
  drawing surface (`surface`); the layout of the overlay (`overlay`).
- `app/`: the program. It owns the window, Servo, wgpu and Iced, hands the
  library plain values (event kinds, messages, sizes, which formats are
  sRGB) and carries out the effects the library returns.
- `tests/`: tests of the library on concrete values.

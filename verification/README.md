# climber

Firmware for a small car that climbs a hill, split in two:

- `src/` — the verified library: motor power commands and their mapping
  onto the motor driver's PWM duty cycles, the control-station and
  mobile-app command controllers, the integer half of the heading
  correction, the IMU link state machine (connect retries, read retries,
  link status), sensor health bookkeeping, the motor test plans and the
  parsing helpers. Every public function carries a contract; the laws
  that relate several calls are public proof functions next to them.
- `app/` — the STM32 program around it: peripherals, async tasks, the
  sensor drivers, logging, and the floating-point parts (altitude, heading
  trigonometry, the PI controller, moving averages), which hand plain
  values to the library.
- `tests/` — tests of the library on concrete values.

# icm40627

The decision core of a driver for the ICM-40627 (and ICM-42627) 6-axis IMU,
verified with Verus.

- `src/` is the verified library: the register map (`register`), the
  configuration settings and their register fields (`config`), the
  read-modify-write of a field and reading settings back (`field`), the
  decoding of sensor words (`words`, `measure`), the transfers each driver
  operation asks for (`driver`), and the start-up sequence as a state machine
  (`startup`).
- `app/` is the asynchronous I²C driver built on `embedded-hal-async`: it
  carries out the transfers the library asks for and converts readings to
  floating-point physical units.

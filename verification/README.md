# sensor-lib

The verified core of the SUSEE sensor software: the data types of the C API of the
Streams POC library, the persistence of the Streams client state, the response slot of
requests sent through an application callback (LoRaWAN), the compressed-message protocol
of the Streams transports, the HTTP helpers of the ESP32 sensor, and the decisions of the
sensor, management console and LoRaWAN application server mock programs.

Layout:

- `src/` — the library, written in Verus. Every public function carries a contract, and
  the properties that span several functions are stated as proof functions next to them.
- `tests/` — tests of the library on concrete values.
- `app/` — the parts that talk to the outside world: the exported C functions, file and
  callback I/O of the persistence, the command line of the sensor, and the TCP server of
  the application server mock. They hand plain values to the library and act on what it
  decides.

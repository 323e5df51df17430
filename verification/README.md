# stm32_generator

A configurator for STM32 firmware projects: pick a board, configure GPIO
pins, SPI buses and peripherals such as the W5500 Ethernet module, and
generate a Cargo project for the chosen microcontroller.

## Layout

- `src/` is the library, verified with Verus:
  - `board`, `gpio`: the supported boards, their microcontrollers, pins,
    pin modes and SPI pin mappings;
  - `config`: the configuration, which never uses a pin twice, never
    configures a bus twice and gives every peripheral a fresh identifier;
  - `peripherals`: the W5500 module and its network settings;
  - `forms`: the state machines behind the forms and pages of the window,
    including the parsing of MAC and IPv4 addresses, ports and numbers;
  - `generator`: the flat context that templates are rendered from, the
    template environment, and the stages of a generation;
  - `errors`, `text`, `seqs`: error messages and shared helpers.
- `tests/` exercises the library.
- `app/` is the desktop application: the libadwaita window, the template
  sources, the serialisation of the context and the worker that writes the
  generated project to disk.

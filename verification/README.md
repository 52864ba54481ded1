# audio_guide

Firmware logic of an interactive audio guide for an exhibition: a mode switch
selects a question-and-answer mode or an interactive mode, buttons answer
questions or start exhibits, LEDs mark the exhibit in play, and MP3
recordings are decoded and played through a DAC.

`src/` is the verified library:

- `config` — the exhibits, the recordings they name, and lookups over them;
- `reader` — reading an in-memory recording into the decoder's buffer;
- `mp3`, `packet` — the trusted boundary to `rmp3` and `heapless`;
- `samples` — turning decoded PCM into DAC values;
- `audio` — the decoder's state machine, from MP3 bytes to sample packets;
- `playback` — the player's sample clock;
- `buttons` — debounced button scans and mode switch readings;
- `leds` — the LED bank;
- `guide` — the guide's state machine, with its laws.

`app/` is the firmware around it: board setup, the embassy tasks that run the
state machines, and the I/O they ask for.

# atom_sim

An interactive atom sandbox: atoms drift, bounce, collide and attract each
other in a window, and a side panel spawns atoms from templates and shows an
element card for the atom under the cursor.

- `src/` is the verified library (Verus): element symbols, families and
  colours, decimal and charge labels, the atom templates and their card
  lines, electron-shell filling, the proton/neutron layout of a nucleus, the
  control-panel state machine, and the order in which atom pairs interact.
- `app/` is the program around it: window, drawing, mouse input, the
  template file and its JSON parsing, and the floating-point physics.
- `tests/` exercises the library on concrete values.

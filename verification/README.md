# pappap_node

The verified core of the Pappap AI Chain node, written in Verus.

- `src/` is the library. Its functions are verified; its calls into outside crates
  (Kyber768, ChaCha20-Poly1305, zeroize, base64, chrono, the random generators) and
  std's lowercasing go through small trusted wrappers whose contracts are stated:
  - `config` – configuration defaults and the 32-byte encryption key block;
  - `crypto_pqc` – Kyber768 + ChaCha20-Poly1305 sealing into `ct || nonce || body`;
  - `snn_core` – the neuron budget of the neural core and its language detector;
  - `managers` – consensus, storage and security decisions on bus messages;
  - `p2p` – publish filters and the gossip swarm's event state machine;
  - `multimodal` – planning of voice / vision requests;
  - `desktop` – the body of a prompt request;
  - `text` – character-level equality, substring search and decimal text.
- `tests/` runs the library on concrete values.
- `app/` is the node program: configuration sources, machine probing, tokio tasks,
  libp2p networking and the HTTP endpoint, all driven by the library's decisions.

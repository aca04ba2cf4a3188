# gossipsub-baseline-bench

Disclosed-baseline benchmark harness for stock rust-libp2p gossipsub at
large (4-10 MB) message sizes. N swarms run in one process over the memory
transport; every connection passes through a fluid-model link shaper
(release at `max(arrival, serializer_free) + len/bandwidth + latency`);
node 0 publishes seeded payloads and every first delivery and every wire
byte is recorded. Every knob is disclosed next to the results.

## Layout

- `src/` — the verified library (Verus):
  - `config.rs`: flags, defaults, the combined constraints, the disclosure
    document;
  - `topology.rs`: ring plus seeded random edges, sorted and free of
    repeats and self-loops;
  - `shaping.rs`: the release schedule and the link's release queue, with
    the FIFO and ordering laws;
  - `runner.rs`: seeds, payloads and their sequence numbers, node keys and
    addresses, turning run events into per-message outcomes;
  - `report.rs`: outcomes, nearest-rank percentiles, statistics and the
    JSON documents;
  - `text.rs`, `rng.rs`, `error.rs`: decimal text, the seeded generator,
    the error type.
- `app/` — the program around it: flag reading, the async link wrapper,
  swarm construction and the schedule, floating-point printing, files.
- `tests/` — tests of the library.

## Usage

```
gossipsub_baseline_bench --nodes=30 --message-bytes=5000000 --messages=10 \
  --latency-ms=50 --bandwidth-mbps=50 --mesh-n=8 --mesh-n-low=6 --mesh-n-high=12 \
  --idontwant-on-publish=false --flood-publish=false --validation=strict --seed=42
```

Output goes to `results/summary.json` and `results/deliveries.jsonl`.
Setting `BENCH_LIBP2P_REV` names another libp2p revision in the disclosure.

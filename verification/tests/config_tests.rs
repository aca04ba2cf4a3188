use gossipsub_baseline_bench::config::{Applied, Bandwidth, BenchConfig, Validation};
use gossipsub_baseline_bench::error::Error;

fn read_mbps(value: &str) -> Result<Bandwidth, String> {
    value
        .parse::<f64>()
        .map(|f| Bandwidth { text: f.to_string(), positive: f > 0.0 })
        .map_err(|e| e.to_string())
}

fn parse(args: &[&str]) -> Result<BenchConfig, Error> {
    let args: Vec<String> = args.iter().map(|a| a.to_string()).collect();
    let readings = BenchConfig::bandwidth_values(&args).iter().map(|v| read_mbps(v)).collect();
    BenchConfig::parse(&args, readings)
}

#[test]
fn parse_overrides_and_rejects() -> Result<(), String> {
    let cfg = parse(&["--nodes=10", "--message-bytes=1000000", "--validation=permissive"])
        .map_err(|e| e.message())?;
    (cfg.nodes() == 10
        && cfg.message_bytes() == 1_000_000
        && cfg.validation() == Validation::Permissive)
        .then_some(())
        .ok_or_else(|| "override not applied".to_string())?;
    parse(&["--bogus=1"])
        .err()
        .map(|_| ())
        .ok_or_else(|| "unknown flag accepted".to_string())
}

#[test]
fn defaults_match_the_readme() {
    let c = BenchConfig::default();
    assert_eq!(c.nodes(), 30);
    assert_eq!(c.edges_per_node(), 12);
    assert_eq!((c.mesh_n_low(), c.mesh_n(), c.mesh_n_high()), (6, 8, 12));
    assert_eq!(c.message_bytes(), 5_000_000);
    assert_eq!(c.messages(), 10);
    assert_eq!(c.latency(), 50_000_000);
    assert_eq!(c.bandwidth_mbps(), "50");
    assert!(!c.flood_publish());
    assert!(!c.idontwant_on_publish());
    assert_eq!(c.validation(), Validation::Strict);
    assert_eq!(c.heartbeat(), 1_000_000_000);
    assert_eq!((c.history_length(), c.history_gossip()), (5, 3));
    assert_eq!(c.warmup(), 10_000_000_000);
    assert_eq!(c.settle(), 30_000_000_000);
    assert_eq!(c.seed(), 42);
    assert_eq!(c.out_dir(), "results");
    assert_eq!(c.max_transmit_size(), 10_000_000);
}

#[test]
fn disclosure_of_defaults() {
    assert_eq!(
        BenchConfig::default().disclosure_json(),
        "{\"nodes\":30,\"edges_per_node\":12,\"mesh_n\":8,\"mesh_n_low\":6,\"mesh_n_high\":12,\"message_bytes\":5000000,\"messages\":10,\"latency_ms\":50,\"bandwidth_mbps\":50,\"flood_publish\":false,\"idontwant_on_publish\":false,\"validation\":\"strict\",\"heartbeat_ms\":1000,\"history_length\":5,\"history_gossip\":3,\"max_transmit_size\":10000000,\"warmup_secs\":10,\"settle_secs\":30,\"seed\":42,\"transport\":\"memory+plaintext+yamux-default-windows\",\"signing\":\"signed\",\"libp2p_rev\":\"ee8bf12e6d94d48518ea67773abb11625b2c4f41\"}"
    );
}

#[test]
fn disclosure_names_the_measured_revision() {
    let c = BenchConfig::default();
    let pinned = c.disclosure_json();
    let other = c.disclosure_json_for("abc123");
    assert!(other.ends_with(",\"signing\":\"signed\",\"libp2p_rev\":\"abc123\"}"));
    assert_eq!(
        pinned.replace("ee8bf12e6d94d48518ea67773abb11625b2c4f41", "abc123"),
        other
    );
}

#[test]
fn every_flag_applies() {
    let c = parse(&[
        "--nodes=4",
        "--mesh-n-low=1",
        "--mesh-n=2",
        "--mesh-n-high=3",
        "--edges-per-node=3",
        "--message-bytes=+64",
        "--messages=2",
        "--latency-ms=7",
        "--bandwidth-mbps=12.50",
        "--flood-publish=true",
        "--idontwant-on-publish=true",
        "--heartbeat-ms=250",
        "--history-length=6",
        "--history-gossip=2",
        "--warmup-secs=1",
        "--settle-secs=3",
        "--seed=99",
        "--out-dir=a=b",
        "--validation=off",
    ])
    .map_err(|e| e.message())
    .unwrap();
    assert_eq!((c.nodes(), c.edges_per_node()), (4, 3));
    assert_eq!((c.mesh_n_low(), c.mesh_n(), c.mesh_n_high()), (1, 2, 3));
    assert_eq!((c.message_bytes(), c.messages()), (64, 2));
    assert_eq!(c.latency(), 7_000_000);
    assert_eq!(c.bandwidth_mbps(), "12.5");
    assert!(c.flood_publish() && c.idontwant_on_publish());
    assert_eq!(c.heartbeat(), 250_000_000);
    assert_eq!((c.history_length(), c.history_gossip()), (6, 2));
    assert_eq!((c.warmup(), c.settle()), (1_000_000_000, 3_000_000_000));
    assert_eq!(c.seed(), 99);
    assert_eq!(c.out_dir(), "a=b");
    assert_eq!(c.validation(), Validation::Off);
    assert_eq!(Validation::Off.label(), "off");
    assert_eq!(Validation::Anonymous.label(), "anonymous");
    assert!(c.disclosure_json().contains("\"bandwidth_mbps\":12.5,\"flood_publish\":true,"));
}

fn invalid_flag(r: Result<BenchConfig, Error>) -> (String, String) {
    match r {
        Err(Error::InvalidFlag { flag, reason }) => (flag, reason),
        Err(e) => panic!("unexpected error {}", e.message()),
        Ok(_) => panic!("accepted"),
    }
}

#[test]
fn each_rejection() {
    assert_eq!(
        invalid_flag(parse(&["--nodes"])),
        ("--nodes".to_string(), "expected --key=value".to_string())
    );
    assert_eq!(invalid_flag(parse(&["--nodes=ten"])).0, "--nodes");
    assert_eq!(invalid_flag(parse(&["--messages="])).0, "--messages");
    assert_eq!(invalid_flag(parse(&["--seed=-1"])).0, "--seed");
    assert_eq!(invalid_flag(parse(&["--seed=18446744073709551616"])).0, "--seed");
    assert_eq!(invalid_flag(parse(&["--flood-publish=yes"])).0, "--flood-publish");
    assert_eq!(invalid_flag(parse(&["--bandwidth-mbps=fast"])).0, "--bandwidth-mbps");
    assert_eq!(
        invalid_flag(parse(&["--validation=loose"])),
        ("--validation".to_string(), "expected strict|permissive|anonymous|off".to_string())
    );
    let combined = (
        "(combined)".to_string(),
        "need nodes>=2, message-bytes>=8, messages>=1, mesh-n-low<=mesh-n<=mesh-n-high<=edges-per-node, bandwidth>0".to_string(),
    );
    assert_eq!(invalid_flag(parse(&["--nodes=1"])), combined);
    assert_eq!(invalid_flag(parse(&["--message-bytes=7"])), combined);
    assert_eq!(invalid_flag(parse(&["--messages=0"])), combined);
    assert_eq!(invalid_flag(parse(&["--mesh-n-low=9"])), combined);
    assert_eq!(invalid_flag(parse(&["--mesh-n-high=7"])), combined);
    assert_eq!(invalid_flag(parse(&["--mesh-n-high=13"])), combined);
    assert_eq!(invalid_flag(parse(&["--edges-per-node=4"])), combined);
    assert_eq!(parse(&["--edges-per-node=12"]).map_err(|e| e.message()).unwrap().edges_per_node(), 12);
    assert_eq!(invalid_flag(parse(&["--bandwidth-mbps=0"])), combined);
    match parse(&["--bogus=1"]) {
        Err(Error::UnknownFlag(f)) => assert_eq!(f, "--bogus"),
        _ => panic!("unknown flag accepted"),
    }
}

#[test]
fn max_transmit_saturates() {
    let c = parse(&[&format!("--message-bytes={}", usize::MAX)]).map_err(|e| e.message()).unwrap();
    assert_eq!(c.max_transmit_size(), usize::MAX);
}

#[test]
fn error_messages() {
    let e = Error::InvalidFlag { flag: "--x".to_string(), reason: "bad".to_string() };
    assert_eq!(e.message(), "invalid flag --x: bad");
    assert_eq!(Error::UnknownFlag("--y".to_string()).message(), "unknown flag --y");
    assert_eq!(Error::Config("c".to_string()).message(), "gossipsub config rejected: c");
    assert_eq!(Error::Behaviour("b").message(), "gossipsub behaviour rejected: b");
    assert_eq!(Error::Subscribe("s".to_string()).message(), "subscribe failed: s");
    assert_eq!(Error::Listen("l".to_string()).message(), "listen failed: l");
    assert_eq!(Error::ChannelClosed("w").message(), "channel closed early: w");
    assert_eq!(Error::SetupTimeout("p").message(), "setup phase timed out: p");
    let io = std::io::Error::other("boom");
    assert_eq!(Error::Runtime(io).message(), "tokio runtime: boom");
    let io = std::io::Error::other("full");
    assert_eq!(Error::Report(io).message(), "writing report: full");
}

#[test]
fn flag_values_follow_std_parsing() {
    assert_eq!(parse(&["--nodes=+12"]).map_err(|e| e.message()).unwrap().nodes(), 12);
    assert_eq!(invalid_flag(parse(&["--nodes="])).0, "--nodes");
    assert_eq!(invalid_flag(parse(&["--nodes=+"])).0, "--nodes");
    assert_eq!(invalid_flag(parse(&["--nodes= 1"])).0, "--nodes");
    assert_eq!(
        parse(&["--seed=18446744073709551615"]).map_err(|e| e.message()).unwrap().seed(),
        u64::MAX
    );
    assert!(parse(&["--flood-publish=false"]).map_err(|e| e.message()).unwrap().flood_publish() == false);
    assert_eq!(invalid_flag(parse(&["--flood-publish=True"])).0, "--flood-publish");
}

#[test]
fn apply_hands_back_the_bandwidth_value() {
    match BenchConfig::default().apply("--bandwidth-mbps=12.5") {
        Ok(Applied::Bandwidth { cfg, value }) => {
            assert_eq!(value, "12.5");
            let c = cfg.with_bandwidth(read_mbps(&value)).map_err(|e| e.message()).unwrap();
            assert_eq!(c.bandwidth_mbps(), "12.5");
        }
        _ => panic!("bandwidth flag not handed back"),
    }
    match BenchConfig::default().apply("--nodes=3") {
        Ok(Applied::Done(c)) => assert_eq!(c.nodes(), 3),
        _ => panic!("flag not applied"),
    }
}

#[test]
fn parse_stops_at_the_first_failure() {
    let args: Vec<String> = ["--bandwidth-mbps=5", "--nodes=x", "--bandwidth-mbps=fast", "--bogus=1"]
        .iter()
        .map(|a| a.to_string())
        .collect();
    assert_eq!(BenchConfig::bandwidth_values(&args), vec!["5".to_string(), "fast".to_string()]);
    assert_eq!(invalid_flag(parse(&["--bandwidth-mbps=5", "--nodes=x", "--bandwidth-mbps=fast", "--bogus=1"])).0, "--nodes");
    assert_eq!(parse(&["--bandwidth-mbps=5", "--bandwidth-mbps=7"]).map_err(|e| e.message()).unwrap().bandwidth_mbps(), "7");
    assert_eq!(parse(&[]).map_err(|e| e.message()).unwrap().nodes(), 30);
}

#[test]
fn validation_labels_round_trip() {
    for v in [Validation::Strict, Validation::Permissive, Validation::Anonymous, Validation::Off] {
        let c = parse(&[&format!("--validation={}", v.label())]).map_err(|e| e.message()).unwrap();
        assert_eq!(c.validation(), v);
    }
    assert_eq!(invalid_flag(parse(&["--validation=Strict"])).0, "--validation");
}

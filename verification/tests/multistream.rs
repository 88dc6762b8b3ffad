use neko_cli::multistream::{
    arg, bounds, config, hex_decode, mode, port, run_args, MultistreamArgs, MultistreamMode,
};

fn args(values: &[&str]) -> Vec<String> {
    values.iter().map(|s| s.to_string()).collect()
}

#[test]
fn multistream_bounds_and_defaults() {
    assert_eq!(config(&args(&["multistream"])), Ok((2, 3, 32)));
    assert_eq!(config(&args(&["m", "--streams", "16", "--records", "64", "--bytes", "1024"])), Ok((16, 64, 1024)));
    assert_eq!(bounds(0, 1, 1), Err("streams outside 1-16"));
    assert_eq!(bounds(1, 65, 1), Err("records outside 1-64"));
    assert_eq!(bounds(1, 1, 1025), Err("bytes outside 1-1024"));
    assert_eq!(bounds(16, 64, 1024), Ok(()));
    // An unparsable value falls back to the default.
    assert_eq!(arg(&args(&["m", "--streams", "many"]), "--streams", 2), 2);
    assert_eq!(arg(&args(&["m", "--streams", "9"]), "--streams", 2), 9);
}

#[test]
fn multistream_keys_are_32_byte_hex() {
    let key = "00ff".repeat(16);
    let decoded = hex_decode(&key).unwrap();
    assert_eq!(decoded.len(), 32);
    assert_eq!(&decoded[..2], &[0x00, 0xff]);
    assert_eq!(hex_decode("00"), Err("key must be 32-byte hex"));
    let bad = format!("zz{}", "00".repeat(31));
    assert_eq!(hex_decode(&bad), Err("invalid key hex"));
    let upper = "AB".repeat(32);
    assert_eq!(hex_decode(&upper).unwrap(), vec![0xab; 32]);
}

#[test]
fn multistream_side_and_port() {
    let a = args;
    assert_eq!(mode(&a(&["multistream", "--mode", "server"])), Ok(MultistreamMode::Server));
    assert_eq!(mode(&a(&["multistream", "--mode", "client"])), Ok(MultistreamMode::Client));
    assert_eq!(mode(&a(&["multistream"])), Ok(MultistreamMode::Client));
    assert_eq!(mode(&a(&["multistream", "--mode", "relay"])), Err("mode must be client or server"));
    assert_eq!(port(&a(&["multistream"])), Ok(40082));
    assert_eq!(port(&a(&["multistream", "--port", "40100"])), Ok(40100));
    assert_eq!(port(&a(&["multistream", "--port", "40101"])), Err("port outside 40080-40100"));
    // only the low 16 bits are checked
    assert_eq!(port(&a(&["multistream", "--port", "105616"])), Ok(105616));
    // an unreadable port falls back to the default
    assert_eq!(port(&a(&["multistream", "--port", "x"])), Ok(40082));
}

#[test]
fn multistream_run_options_are_checked_in_order() {
    assert_eq!(
        run_args(&args(&["multistream", "--mode", "relay"])),
        Err("mode must be client or server")
    );
    assert_eq!(run_args(&args(&["multistream", "--streams", "17"])), Err("streams outside 1-16"));
    // the port is refused before the mode is looked at
    assert_eq!(
        run_args(&args(&["multistream", "--mode", "relay", "--port", "1"])),
        Err("port outside 40080-40100")
    );
    assert_eq!(
        run_args(&args(&["multistream", "--mode", "server", "--port", "40090"])),
        Ok(MultistreamArgs { mode: MultistreamMode::Server, streams: 2, records: 3, bytes: 32, port: 40090 })
    );
}

use rpc_servers::config::{payload_size_or_default, Config, MEGABYTE, RPC_MAX_PAYLOAD_DEFAULT};

fn config(
    max_connections: Option<usize>,
    max_subs_per_conn: Option<usize>,
    max_payload_in_mb: Option<usize>,
    max_payload_out_mb: Option<usize>,
) -> Config {
    Config { max_connections, max_subs_per_conn, max_payload_in_mb, max_payload_out_mb }
}

#[test]
fn absent_limits_resolve_to_defaults() {
    let limits = config(None, None, None, None).deconstruct();
    assert_eq!(limits, (15_728_640, 15_728_640, 100, 1024));
}

#[test]
fn given_limits_are_kept() {
    let limits = config(Some(7), Some(9), Some(1), Some(2)).deconstruct();
    assert_eq!(limits, (1_048_576, 2_097_152, 7, 9));
}

#[test]
fn payload_above_32_bits_saturates() {
    let limits = config(None, None, Some(4096), Some(usize::MAX)).deconstruct();
    assert_eq!(limits.0, u32::MAX);
    assert_eq!(limits.1, u32::MAX);
}

#[test]
fn largest_payload_that_fits_is_exact() {
    let limits = config(None, None, Some(4095), Some(0)).deconstruct();
    assert_eq!(limits.0, 4_293_918_720);
    assert_eq!(limits.1, 0);
}

#[test]
fn counts_above_32_bits_saturate() {
    let limits = config(Some(usize::MAX), Some(usize::MAX), None, None).deconstruct();
    assert_eq!(limits.2, u32::MAX);
    assert_eq!(limits.3, u32::MAX);
}

#[test]
fn payload_size_defaults_to_fifteen_mebibytes() {
    assert_eq!(MEGABYTE, 1_048_576);
    assert_eq!(RPC_MAX_PAYLOAD_DEFAULT, 15_728_640);
    assert_eq!(payload_size_or_default(None), 15_728_640);
}

#[test]
fn payload_size_is_mebibytes_times_unit() {
    assert_eq!(payload_size_or_default(Some(3)), 3_145_728);
    assert_eq!(payload_size_or_default(Some(0)), 0);
}

#[test]
fn payload_size_saturates_at_machine_limit() {
    assert_eq!(payload_size_or_default(Some(usize::MAX)), usize::MAX);
    assert_eq!(payload_size_or_default(Some(usize::MAX / MEGABYTE + 1)), usize::MAX);
}

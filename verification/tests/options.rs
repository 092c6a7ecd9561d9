use rabbit::defaults::{
    chat_broadcast, chat_port, chat_username, http_options, http_port, ping_options, ping_target,
    plan_options, plan_unit, scan_end_ip, scan_options, scan_start_ip, tftpc_options, tftpc_server,
    tftpd_options, TftpdSettings,
};
use rabbit::options::{
    parse_ping_options, parse_tftp_client_options, scan_range_end,
};

#[test]
fn test_ping_opts_parsing() {
    let opts = parse_ping_options("interval=500;count=10;stoponloss=true");
    assert_eq!(opts.interval, 500);
    assert_eq!(opts.count, 10);
    assert!(opts.stop_on_loss);
}

#[test]
fn ping_options_defaults_and_bad_values() {
    let opts = parse_ping_options("");
    assert_eq!((opts.interval, opts.count, opts.stop_on_loss), (1000, -1, false));
    let opts = parse_ping_options(" interval =abc;count=-5;stoponloss=TRUE;x=1");
    assert_eq!((opts.interval, opts.count, opts.stop_on_loss), (1000, -5, false));
}

#[test]
fn tftp_client_options() {
    let o = parse_tftp_client_options("timeout=300;retry=3;blksize=512;");
    assert_eq!((o.timeout, o.max_retry, o.block_size), (300, 3, 512));
    let o = parse_tftp_client_options("timeout=200;maxretry=10;blksize=1024;override=true");
    assert_eq!((o.timeout, o.max_retry, o.block_size), (200, 10, 1024));
}

#[test]
fn shown_options_read_back() {
    let text = ping_options(Some(250), Some(7), Some(true));
    assert_eq!(text, "interval=250;count=7;stoponloss=true");
    let o = parse_ping_options(&text);
    assert_eq!((o.interval, o.count, o.stop_on_loss), (250, 7, true));
    let text = ping_options(None, None, None);
    assert_eq!(text, "interval=1000;count=-1;stoponloss=false");
    let o = parse_ping_options(&text);
    assert_eq!((o.interval, o.count, o.stop_on_loss), (1000, -1, false));
    let text = tftpc_options(Some(100), None, Some(2048));
    assert_eq!(text, "timeout=100;retry=10;blksize=2048;");
    let o = parse_tftp_client_options(&text);
    assert_eq!((o.timeout, o.max_retry, o.block_size), (100, 10, 2048));
}

#[test]
fn default_fields() {
    assert_eq!(ping_target(None), "1.1.1.1");
    assert_eq!(ping_target(Some("8.8.8.8")), "8.8.8.8");
    assert_eq!(scan_start_ip(None), "192.168.1.1");
    assert_eq!(scan_end_ip(None), "254");
    assert_eq!(scan_options(None), "filter=true");
    assert_eq!(http_port(None), 8000);
    assert_eq!(http_port(Some(70000)), 4464);
    assert_eq!(http_options(None, Some(false)), "autoindex=true;videoplay=false;");
    let s = TftpdSettings {
        timeout: None,
        retry: None,
        blksize: None,
        override_existing: None,
        qsize: None,
        qtout: None,
        fslog: Some(true),
    };
    assert_eq!(
        tftpd_options(&s),
        "timeout=200;retry=10;blksize=512;override=false;qsize=2000;qtout=1000;fslog=true;"
    );
    assert_eq!(tftpc_server(None), "127.0.0.1");
    assert_eq!(chat_username(None), "User@PC");
    assert_eq!(chat_port(None), 1314);
    assert_eq!(chat_port(Some(2000)), 2000);
    assert_eq!(chat_broadcast(None), "255.255.255.255");
    assert_eq!(plan_options(Some(true)), "override=true");
}

#[test]
fn scan_range_end_address() {
    assert_eq!(scan_range_end("192.168.1.1", "254"), "192.168.1.254");
    assert_eq!(scan_range_end("192.168.1.1", ""), "1");
    assert_eq!(scan_range_end("192.168.1.1", "300"), "300");
    assert_eq!(scan_range_end("10.0.0.1", "10.0.0.9"), "10.0.0.9");
    assert_eq!(scan_range_end("bad", "7"), "7");
}

#[test]
fn plan_unit_menu() {
    assert_eq!(plan_unit(Some("hours")), 1);
    assert_eq!(plan_unit(Some("hour")), 1);
    assert_eq!(plan_unit(Some("days")), 2);
    assert_eq!(plan_unit(Some("minute")), 0);
    assert_eq!(plan_unit(Some("week")), 0);
    assert_eq!(plan_unit(None), 0);
}

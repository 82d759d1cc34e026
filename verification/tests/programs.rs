use secret_tunnel::clock::{epoch_seconds, latency_ms, now_epoch};
use secret_tunnel::command::{
    curl_verify_arguments, ipinfo_arguments, nettop_arguments, read_public_address,
    ssh_test_arguments, ssh_tunnel_arguments, verify_proxy, word_failure, word_failure_of,
    CommandReport,
};
use secret_tunnel::ip_info::{
    country_code_to_flag, draw_flag, fetch_ipinfo, known_ip, look_up_ip, note_ip, read_ip_info, CachedIp,
    IpInfo, IpLookup,
};
use secret_tunnel::json::get_text_member;
use secret_tunnel::log::{keep_newest, log_line, word_child_line, LOG_LIMIT};
use secret_tunnel::nettop::{parse_nettop, sample_process_traffic};
use secret_tunnel::profile::{ProxyProfile, ServerProfile};

fn report(success: bool, stdout: &[u8], stderr: &[u8]) -> CommandReport {
    CommandReport {
        success,
        status: "exit status: 7".to_string(),
        stdout: stdout.to_vec(),
        stderr: stderr.to_vec(),
    }
}

fn server() -> ServerProfile {
    ServerProfile {
        id: "a".to_string(),
        name: "A".to_string(),
        host: "a.example".to_string(),
        port: 2222,
        user: "me".to_string(),
        key_path: "~/.ssh/key".to_string(),
        compression: false,
        strict_host_key_checking: "accept-new".to_string(),
        connect_timeout: 9,
        server_alive_interval: 16,
        server_alive_count_max: 4,
    }
}

fn proxy(port: u16) -> ProxyProfile {
    ProxyProfile {
        id: "p".to_string(),
        name: "P".to_string(),
        host: "127.0.0.1".to_string(),
        port,
    }
}

fn info(ip: &str) -> IpInfo {
    IpInfo {
        ip: ip.to_string(),
        country_code: "FR".to_string(),
        country_name: "France".to_string(),
    }
}

#[test]
fn ssh_is_told_to_carry_a_tunnel() {
    let expected = "-NT -o ExitOnForwardFailure=yes -o ServerAliveInterval=16 -o ServerAliveCountMax=4 -o ConnectTimeout=9 -o TCPKeepAlive=yes -o IdentitiesOnly=yes -o PasswordAuthentication=no -o BatchMode=yes -o StrictHostKeyChecking=accept-new -p 2222 -D 127.0.0.1:1080 -i /k me@a.example";
    assert_eq!(ssh_tunnel_arguments(&server(), &proxy(1080), "/k").join(" "), expected);
    let mut compressed = server();
    compressed.compression = true;
    assert_eq!(
        ssh_tunnel_arguments(&compressed, &proxy(1080), "/k").join(" "),
        expected.replace(" -p ", " -C -p ")
    );
}

#[test]
fn ssh_is_told_to_try_the_key() {
    assert_eq!(
        ssh_test_arguments(&server(), "/k").join(" "),
        "-o BatchMode=yes -o PasswordAuthentication=no -o IdentitiesOnly=yes -o ConnectTimeout=9 -o StrictHostKeyChecking=accept-new -p 2222 -i /k me@a.example exit"
    );
}

#[test]
fn curl_is_told_what_to_ask() {
    assert_eq!(
        curl_verify_arguments(&proxy(1080)).join(" "),
        "-sS --max-time 8 --socks5-hostname 127.0.0.1:1080 https://api.ipify.org"
    );
    assert_eq!(
        ipinfo_arguments(" t0 ", Some(&proxy(1080))).unwrap().join(" "),
        "-sS --max-time 6 --socks5-hostname 127.0.0.1:1080 https://api.ipinfo.io/lite/me?token=t0"
    );
    assert_eq!(
        ipinfo_arguments("t0", None).unwrap().join(" "),
        "-sS --max-time 6 https://api.ipinfo.io/lite/me?token=t0"
    );
    assert!(ipinfo_arguments(" \n", Some(&proxy(1080))).is_none());
}

#[test]
fn nettop_is_told_the_process() {
    assert_eq!(nettop_arguments(4321).join(" "), "-P -p 4321 -L 1 -x");
}

#[test]
fn a_failed_program_speaks_for_itself() {
    assert_eq!(word_failure("x ended with ", &report(false, b"out", b" bad \n")), "bad");
    assert_eq!(
        word_failure("x ended with ", &report(false, b"out", b" \n")),
        "x ended with exit status: 7"
    );
    assert_eq!(word_failure_of("e ", "s", ""), "e s");
}

#[test]
fn bytes_that_are_no_text_are_replaced() {
    assert_eq!(
        word_failure("", &report(false, b"", &[b'a', 0xff, b'b', b' '])),
        "a\u{fffd}b"
    );
    assert_eq!(verify_proxy(&report(true, &[0xc3, 0xa9, 0xff], b"")).unwrap(), "é\u{fffd}");
}

#[test]
fn a_proxy_is_verified_by_the_address_behind_it() {
    assert_eq!(verify_proxy(&report(true, b"192.0.2.9\n", b"")).unwrap(), "192.0.2.9");
    assert_eq!(
        verify_proxy(&report(true, b" \n", b"")).unwrap_err(),
        "Proxy verification returned empty response"
    );
    assert_eq!(
        verify_proxy(&report(false, b"192.0.2.9", b"")).unwrap_err(),
        "curl exited with exit status: 7"
    );
    assert_eq!(verify_proxy(&report(false, b"", b"no route")).unwrap_err(), "no route");
    assert_eq!(read_public_address(" a ").unwrap(), "a");
}

#[test]
fn traffic_is_read_from_the_table() {
    let table = "time,,bytes_in,bytes_out,x\n12:00,ssh.1, 1234 ,56,\n12:00,ssh.2,1,1,\n";
    assert_eq!(parse_nettop(table), Some((1234, 56)));
    assert_eq!(parse_nettop("bytes_out,bytes_in\r\n5,6\r\n"), Some((6, 5)));
    assert_eq!(parse_nettop("bytes_in,bytes_out\n1\nx,2\n3,4"), Some((3, 4)));
    assert_eq!(parse_nettop("a,bytes_in\n1,2\nbytes_in,bytes_out\n7,8\n"), Some((7, 8)));
    assert_eq!(parse_nettop("bytes_in,bytes_out\n"), None);
    assert_eq!(parse_nettop(""), None);
}

#[test]
fn rows_before_the_head_are_skipped() {
    assert_eq!(parse_nettop("1,2\n3,4\n"), None);
    assert_eq!(parse_nettop("9,9\nbytes_in,bytes_out\n1,2\n"), Some((1, 2)));
}

#[test]
fn a_sample_is_a_table_a_failure_or_nothing() {
    let table = report(true, b"bytes_in,bytes_out\n10,20\n", b"");
    assert_eq!(sample_process_traffic(Some(&table)), Ok(Some((10, 20))));
    assert_eq!(sample_process_traffic(Some(&report(true, b"\xff", b""))), Ok(None));
    assert_eq!(
        sample_process_traffic(Some(&report(false, b"bytes_in,bytes_out\n10,20\n", b""))),
        Err("nettop exited with exit status: 7".to_string())
    );
    assert_eq!(sample_process_traffic(None), Ok(None));
}

#[test]
fn an_answer_tells_of_the_address() {
    let answer = br#"{"ip": "192.0.2.9", "country_code": "FR", "country": "France"}"#;
    let read = fetch_ipinfo(&report(true, answer, b"")).unwrap();
    assert_eq!(read.ip, "192.0.2.9");
    assert_eq!(read.country_code, "FR");
    assert_eq!(read.country_name, "France");
    let read = fetch_ipinfo(&report(true, br#"{"ip": 4, "country": null}"#, b"")).unwrap();
    assert_eq!((read.ip, read.country_code, read.country_name), Default::default());
}

#[test]
fn a_useless_answer_is_a_failure() {
    let expected = serde_json::from_slice::<serde_json::Value>(b"<html>").unwrap_err().to_string();
    assert_eq!(fetch_ipinfo(&report(true, b"<html>", b"")).unwrap_err(), expected);
    assert_eq!(
        fetch_ipinfo(&report(false, b"{}", b"")).unwrap_err(),
        "curl exited with exit status: 7"
    );
}

#[test]
fn members_are_read_by_their_keys() {
    let value = r#"{"a": "x", "b": 2}"#.parse::<serde_json::Value>().unwrap();
    assert_eq!(get_text_member(&value, "a").as_deref(), Some("x"));
    assert!(get_text_member(&value, "b").is_none());
    assert!(get_text_member(&value, "c").is_none());
    assert_eq!(read_ip_info(&value).ip, "");
}

#[test]
fn the_address_is_looked_up_only_while_the_tunnel_runs() {
    let cache = Some(CachedIp { ts: 100, key: "127.0.0.1:1080".to_string(), info: info("a") });
    assert!(matches!(look_up_ip("stopped", &proxy(1080), &cache, 100), IpLookup::Skip));
    assert!(matches!(look_up_ip("running", &proxy(1080), &None, 100), IpLookup::Fetch));
}

#[test]
fn what_was_found_out_is_kept_for_a_minute() {
    let mut cache = None;
    let (shown, log) = note_ip(Ok(Some(info("a"))), &proxy(1080), 100, &mut cache);
    assert_eq!(shown.ip, "a");
    assert!(log.is_none());
    for now in [0, 99, 100, 160] {
        match look_up_ip("running", &proxy(1080), &cache, now) {
            IpLookup::Cached(kept) => assert_eq!(kept.ip, "a"),
            other => panic!("{other:?}"),
        }
    }
    assert!(matches!(look_up_ip("running", &proxy(1080), &cache, 161), IpLookup::Fetch));
    assert!(matches!(look_up_ip("running", &proxy(1081), &cache, 100), IpLookup::Fetch));
}

#[test]
fn a_failure_to_find_out_is_logged() {
    let mut cache = Some(CachedIp { ts: 1, key: "k".to_string(), info: info("a") });
    let (shown, log) = note_ip(Err("no".to_string()), &proxy(1080), 100, &mut cache);
    assert_eq!(shown.ip, "");
    assert_eq!(log.as_deref(), Some("IPinfo: no"));
    let (shown, log) = note_ip(Ok(None), &proxy(1080), 100, &mut cache);
    assert_eq!(shown.ip, "");
    assert!(log.is_none());
    assert_eq!(cache.unwrap().ts, 1);
}

#[test]
fn flags_are_drawn_for_two_letters() {
    assert_eq!(country_code_to_flag("FR"), "🇫🇷");
    assert_eq!(country_code_to_flag(" fr\n"), "🇫🇷");
    assert_eq!(country_code_to_flag("aZ"), "🇦🇿");
    for code in ["", "F", "FRA", "F1", "é", "ÉÀ", "F R"] {
        assert_eq!(country_code_to_flag(code), "", "{code}");
    }
    assert_eq!(draw_flag("fr"), "");
    assert_eq!(draw_flag("DE"), "🇩🇪");
}

#[test]
fn letters_that_grow_in_capitals_count_as_they_come_out() {
    assert_eq!(country_code_to_flag("ß"), draw_flag("SS"));
    assert_eq!(country_code_to_flag("\u{fb01}"), draw_flag("FI"));
}

#[test]
fn the_log_is_stamped_and_bounded() {
    let mut logs = Vec::new();
    log_line(&mut logs, 17, "first");
    assert_eq!(logs, vec!["[17] first"]);
    for n in 0..1000 {
        log_line(&mut logs, n, "more");
    }
    assert_eq!(LOG_LIMIT, 1000);
    assert_eq!(logs.len(), 1000);
    assert_eq!(logs[0], "[0] more");
    assert_eq!(logs[999], "[999] more");
}

#[test]
fn the_newest_items_are_kept() {
    let mut items = vec![1, 2, 3, 4];
    keep_newest(&mut items, 2);
    assert_eq!(items, vec![3, 4]);
    keep_newest(&mut items, 2);
    assert_eq!(items, vec![3, 4]);
    keep_newest(&mut items, 0);
    assert!(items.is_empty());
}

#[test]
fn lines_of_a_child_are_labelled() {
    assert_eq!(word_child_line("ssh stderr", " hi").as_deref(), Some("ssh stderr:  hi"));
    assert!(word_child_line("ssh stderr", " \t").is_none());
}

#[test]
fn time_is_counted_from_the_epoch() {
    assert!(now_epoch() > 1_600_000_000);
    assert_eq!(epoch_seconds(Some(5)), 5);
    assert_eq!(epoch_seconds(None), 0);
    assert_eq!(latency_ms(12), 12);
    assert_eq!(latency_ms(u128::from(u64::MAX) + 1), u64::MAX);
    assert_eq!(latency_ms(u128::from(u64::MAX)), u64::MAX);
}

#[test]
fn an_address_is_known_or_asked_for() {
    let shown = known_ip(IpLookup::Skip).unwrap();
    assert_eq!((shown.ip, shown.country_code, shown.country_name), Default::default());
    assert_eq!(known_ip(IpLookup::Cached(info("a"))).unwrap().ip, "a");
    assert!(known_ip(IpLookup::Fetch).is_none());
}

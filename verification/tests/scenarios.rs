use slowhttptest_gui::app::App;
use slowhttptest_gui::mode::{ProxyMode, TestMode};

fn strings(tokens: &[&str]) -> Vec<String> {
    tokens.iter().map(|t| t.to_string()).collect()
}

fn position(args: &[String], token: &str) -> Option<usize> {
    args.iter().position(|a| a == token)
}

#[test]
fn default_parameters_give_mode_and_target_only() {
    let app = App::default();
    assert_eq!(app.build_args(), strings(&["-H", "-u", "http://localhost/"]));
}

#[test]
fn range_attack_emits_changed_start_but_not_default_limit() {
    let mut app = App::default();
    app.test_mode = TestMode::RangeAttack;
    app.url = "http://t/".to_string();
    app.range_start = "10".to_string();
    app.range_limit = "2000".to_string();
    let args = app.build_args();
    let at = position(&args, "-a").expect("-a is emitted");
    assert_eq!(args[at + 1], "10");
    assert_eq!(position(&args, "-b"), None);
    assert_eq!(args, strings(&["-R", "-u", "http://t/", "-a", "10"]));
}

#[test]
fn same_parameters_give_same_vector() {
    let mut app = App::default();
    app.connections = "75".to_string();
    app.cookie = " a=b ".to_string();
    app.proxy_mode = ProxyMode::Probe;
    app.proxy_addr = "10.0.0.1:3128".to_string();
    let copy = app.clone();
    assert_eq!(app.build_args(), app.build_args());
    assert_eq!(app.build_args(), copy.build_args());
    assert_eq!(app.build_command_preview(), copy.build_command_preview());
}

#[test]
fn each_mode_has_its_flag_first() {
    let cases = [
        (TestMode::SlowHeaders, "-H"),
        (TestMode::SlowBody, "-B"),
        (TestMode::RangeAttack, "-R"),
        (TestMode::SlowRead, "-X"),
    ];
    for (mode, flag) in cases {
        assert_eq!(mode.flag(), flag);
        let mut app = App::default();
        app.test_mode = mode;
        assert_eq!(app.build_args(), strings(&[flag, "-u", "http://localhost/"]));
    }
}

#[test]
fn mode_labels_name_the_mode_and_its_flag() {
    assert_eq!(TestMode::SlowHeaders.label(), "Slow Headers (Slowloris)  -H");
    assert_eq!(TestMode::SlowBody.label(), "Slow Body (R-U-Dead-Yet)  -B");
    assert_eq!(TestMode::RangeAttack.label(), "Range Attack (Apache Killer)  -R");
    assert_eq!(TestMode::SlowRead.label(), "Slow Read  -X");
}

#[test]
fn proxy_modes_have_distinct_flags() {
    assert_eq!(ProxyMode::Direct.flag(), None);
    assert_eq!(ProxyMode::Http.flag(), Some("-d"));
    assert_eq!(ProxyMode::Probe.flag(), Some("-e"));
}

#[test]
fn url_is_passed_verbatim() {
    let mut app = App::default();
    app.url = "  not a url \t".to_string();
    assert_eq!(app.build_args(), strings(&["-H", "-u", "  not a url \t"]));
    app.url = String::new();
    assert_eq!(app.build_args(), strings(&["-H", "-u", ""]));
}

fn set_numeric(app: &mut App, flag: &str, text: &str) {
    let field = match flag {
        "-c" => &mut app.connections,
        "-r" => &mut app.rate,
        "-l" => &mut app.duration,
        "-i" => &mut app.interval,
        "-s" => &mut app.content_length,
        "-x" => &mut app.max_random_data_len,
        "-p" => &mut app.probe_interval,
        "-v" => &mut app.verbosity,
        "-a" => &mut app.range_start,
        "-b" => &mut app.range_limit,
        "-k" => &mut app.pipeline_factor,
        "-n" => &mut app.read_interval,
        "-w" => &mut app.window_lower,
        "-y" => &mut app.window_upper,
        "-z" => &mut app.read_len,
        other => panic!("no numeric option {}", other),
    };
    *field = text.to_string();
}

const NUMERIC: [(&str, i64, Option<TestMode>); 15] = [
    ("-c", 50, None),
    ("-r", 50, None),
    ("-l", 240, None),
    ("-i", 10, None),
    ("-s", 4096, None),
    ("-x", 32, None),
    ("-p", 5, None),
    ("-v", 1, None),
    ("-a", 5, Some(TestMode::RangeAttack)),
    ("-b", 2000, Some(TestMode::RangeAttack)),
    ("-k", 1, Some(TestMode::SlowRead)),
    ("-n", 1, Some(TestMode::SlowRead)),
    ("-w", 1, Some(TestMode::SlowRead)),
    ("-y", 512, Some(TestMode::SlowRead)),
    ("-z", 5, Some(TestMode::SlowRead)),
];

#[test]
fn numeric_option_at_default_is_left_out() {
    for (flag, default, owner) in NUMERIC {
        let mut app = App::default();
        app.test_mode = owner.unwrap_or(TestMode::SlowBody);
        for text in [default.to_string(), format!("  {} ", default), format!("+{}", default), format!("00{}", default)] {
            set_numeric(&mut app, flag, &text);
            let args = app.build_args();
            assert_eq!(position(&args, flag), None, "{} {:?}", flag, text);
            assert_eq!(args.len(), 3);
        }
    }
}

#[test]
fn numeric_option_changed_is_emitted_with_its_value() {
    for (flag, default, owner) in NUMERIC {
        for n in [default + 1, default - 1, 0, -1, -7, 123456789, i64::MAX, i64::MIN] {
            let mut app = App::default();
            app.test_mode = owner.unwrap_or(TestMode::SlowHeaders);
            set_numeric(&mut app, flag, &format!(" {}\t", n));
            let args = app.build_args();
            assert_eq!(args.len(), 5);
            assert_eq!(args[3], flag);
            assert_eq!(args[4], n.to_string());
        }
    }
}

#[test]
fn numeric_text_is_written_in_canonical_form() {
    let mut app = App::default();
    app.connections = "+0075".to_string();
    app.rate = "-0".to_string();
    app.duration = "\u{3000}-0012\u{a0}".to_string();
    assert_eq!(
        app.build_args(),
        strings(&["-H", "-u", "http://localhost/", "-c", "75", "-r", "0", "-l", "-12"])
    );
}

#[test]
fn unreadable_numeric_text_is_left_out() {
    for (flag, _, owner) in NUMERIC {
        for text in [
            "", " ", "abc", "12a", "1 2", "1.5", "0x10", "1_000", "--5", "+-5", "+", "-", "５",
            "9223372036854775808", "-9223372036854775809", "99999999999999999999999999",
        ] {
            let mut app = App::default();
            app.test_mode = owner.unwrap_or(TestMode::SlowHeaders);
            set_numeric(&mut app, flag, text);
            assert_eq!(app.build_args().len(), 3, "{} {:?}", flag, text);
        }
    }
}

#[test]
fn mode_specific_options_stay_with_their_mode() {
    let mut app = App::default();
    app.range_start = "7".to_string();
    app.range_limit = "9".to_string();
    app.pipeline_factor = "2".to_string();
    app.read_interval = "3".to_string();
    app.window_lower = "4".to_string();
    app.window_upper = "5".to_string();
    app.read_len = "6".to_string();

    app.test_mode = TestMode::RangeAttack;
    assert_eq!(
        app.build_args(),
        strings(&["-R", "-u", "http://localhost/", "-a", "7", "-b", "9"])
    );
    app.test_mode = TestMode::SlowRead;
    assert_eq!(
        app.build_args(),
        strings(&[
            "-X", "-u", "http://localhost/", "-k", "2", "-n", "3", "-w", "4", "-y", "5", "-z",
            "6",
        ])
    );
    app.test_mode = TestMode::SlowHeaders;
    assert_eq!(app.build_args(), strings(&["-H", "-u", "http://localhost/"]));
    app.test_mode = TestMode::SlowBody;
    assert_eq!(app.build_args(), strings(&["-B", "-u", "http://localhost/"]));
}

#[test]
fn free_text_options_are_trimmed_and_left_out_when_empty() {
    let mut app = App::default();
    app.verb = " POST ".to_string();
    app.content_type = "\tapplication/json".to_string();
    app.accept = "   ".to_string();
    app.cookie = "a=b; c=d\n".to_string();
    app.custom_header = "X-Custom: value".to_string();
    assert_eq!(
        app.build_args(),
        strings(&[
            "-H", "-u", "http://localhost/", "-t", "POST", "-f", "application/json", "-j",
            "a=b; c=d", "-1", "X-Custom: value",
        ])
    );
}

#[test]
fn proxy_flags_exclude_each_other() {
    for mode in [ProxyMode::Direct, ProxyMode::Http, ProxyMode::Probe] {
        for addr in ["", "   ", " 127.0.0.1:8080 "] {
            let mut app = App::default();
            app.proxy_mode = mode;
            app.proxy_addr = addr.to_string();
            let args = app.build_args();
            let http = position(&args, "-d");
            let probe = position(&args, "-e");
            assert!(http.is_none() || probe.is_none());
            let expected = match mode {
                ProxyMode::Direct => None,
                _ if addr.trim().is_empty() => None,
                ProxyMode::Http => Some("-d"),
                ProxyMode::Probe => Some("-e"),
            };
            match expected {
                None => assert_eq!(args, strings(&["-H", "-u", "http://localhost/"])),
                Some(flag) => assert_eq!(
                    args,
                    strings(&["-H", "-u", "http://localhost/", flag, "127.0.0.1:8080"])
                ),
            }
        }
    }
}

#[test]
fn stats_prefix_needs_stats_flag() {
    let mut app = App::default();
    app.stats_file_prefix = "run7".to_string();
    assert_eq!(app.build_args(), strings(&["-H", "-u", "http://localhost/"]));
    app.generate_stats = true;
    assert_eq!(
        app.build_args(),
        strings(&["-H", "-u", "http://localhost/", "-g", "-o", "run7"])
    );
    app.stats_file_prefix = "  ".to_string();
    assert_eq!(app.build_args(), strings(&["-H", "-u", "http://localhost/", "-g"]));
    app.stats_file_prefix = " stats ".to_string();
    assert_eq!(
        app.build_args(),
        strings(&["-H", "-u", "http://localhost/", "-g", "-o", "stats"])
    );
}

#[test]
fn options_come_in_canonical_order() {
    let mut app = App::default();
    app.test_mode = TestMode::SlowRead;
    app.url = "http://example.test/".to_string();
    app.connections = "1".to_string();
    app.rate = "2".to_string();
    app.duration = "3".to_string();
    app.interval = "4".to_string();
    app.content_length = "5".to_string();
    app.max_random_data_len = "6".to_string();
    app.verb = "PUT".to_string();
    app.content_type = "text/plain".to_string();
    app.accept = "*/*".to_string();
    app.cookie = "k=v".to_string();
    app.custom_header = "A: b".to_string();
    app.proxy_mode = ProxyMode::Http;
    app.proxy_addr = "proxy:1".to_string();
    app.probe_interval = "7".to_string();
    app.generate_stats = true;
    app.stats_file_prefix = "out".to_string();
    app.verbosity = "4".to_string();
    app.range_start = "8".to_string();
    app.pipeline_factor = "9".to_string();
    app.read_interval = "10".to_string();
    app.window_lower = "11".to_string();
    app.window_upper = "12".to_string();
    app.read_len = "13".to_string();
    assert_eq!(
        app.build_args(),
        strings(&[
            "-X", "-u", "http://example.test/", "-c", "1", "-r", "2", "-l", "3", "-i", "4", "-s",
            "5", "-x", "6", "-t", "PUT", "-f", "text/plain", "-m", "*/*", "-j", "k=v", "-1",
            "A: b", "-d", "proxy:1", "-p", "7", "-g", "-o", "out", "-v", "4", "-k", "9", "-n",
            "10", "-w", "11", "-y", "12", "-z", "13",
        ])
    );
}

#[test]
fn effective_binary_is_the_trimmed_path_or_the_default_name() {
    let mut app = App::default();
    assert_eq!(app.effective_binary(), "slowhttptest");
    app.custom_binary_path = " \t ".to_string();
    assert_eq!(app.effective_binary(), "slowhttptest");
    app.custom_binary_path = "  /opt/tools/slowhttptest \n".to_string();
    assert_eq!(app.effective_binary(), "/opt/tools/slowhttptest");
    app.custom_binary_path = "/my tools/sht".to_string();
    assert_eq!(app.effective_binary(), "/my tools/sht");
}

#[test]
fn preview_of_default_parameters() {
    let app = App::default();
    assert_eq!(app.build_command_preview(), "slowhttptest -H -u http://localhost/");
}

#[test]
fn preview_quotes_tokens_that_hold_whitespace() {
    let mut app = App::default();
    app.custom_binary_path = "/opt/sht".to_string();
    app.cookie = "a=b; c=d".to_string();
    app.custom_header = "X:\ty".to_string();
    app.verb = "GET".to_string();
    assert_eq!(
        app.build_command_preview(),
        "/opt/sht -H -u http://localhost/ -t GET -j \"a=b; c=d\" -1 \"X:\ty\""
    );
    app.url = " ".to_string();
    app.cookie = String::new();
    app.custom_header = String::new();
    app.verb = String::new();
    assert_eq!(app.build_command_preview(), "/opt/sht -H -u \" \"");
}

#[test]
fn preview_quotes_a_binary_that_holds_whitespace() {
    let mut app = App::default();
    app.custom_binary_path = "/my tools/sht".to_string();
    assert_eq!(app.build_command_preview(), "\"/my tools/sht\" -H -u http://localhost/");
    app.custom_binary_path = "/opt/my tools/slowhttptest".to_string();
    assert_eq!(
        app.build_command_preview(),
        "\"/opt/my tools/slowhttptest\" -H -u http://localhost/"
    );
    app.custom_binary_path = "  /opt/my\ttools/sht ".to_string();
    assert_eq!(app.build_command_preview(), "\"/opt/my\ttools/sht\" -H -u http://localhost/");
    assert_eq!(app.effective_binary(), "/opt/my\ttools/sht");
    app.custom_binary_path = "  /opt/tools/sht ".to_string();
    assert_eq!(app.build_command_preview(), "/opt/tools/sht -H -u http://localhost/");
}

//! What holds of every command line that the builder makes.

use crate::app::{App, AppView};
use crate::mode::{ProxyMode, TestMode};
use crate::number::{decimal, is_digit, lemma_decimal_shape, parse_i64_spec};
use crate::options::{
    has_flag, has_pair, has_value, lemma_contains_concat, lemma_has_flag_concat,
    lemma_has_value_concat, lemma_numeric_option, lemma_numeric_option_value,
    lemma_numeric_value_of_decimal, lemma_single_option, lemma_single_option_value,
    lemma_text_option, lemma_text_option_value, lemma_tokens_contains, lemma_tokens_pair,
    numeric_value, CliOption, NumericOption, TextOption,
};
use crate::text::{lemma_trimmed_idempotent, trimmed};
use vstd::prelude::*;

verus! {

/// Two parameter sets that hold the same values stand for the same command
/// line and the same preview.
pub proof fn lemma_same_parameters_same_command(a: App, b: App)
    requires
        a@ == b@,
    ensures
        a@.args() == b@.args(),
        a@.effective_binary() == b@.effective_binary(),
        a@.command_preview() == b@.command_preview(),
{
}

/// Whether `flag` is one of the flags that belong to no table of options:
/// the target, the two proxy flags and the two statistics flags.
pub open spec fn is_fixed_flag(flag: Seq<char>) -> bool {
    flag == "-u"@ || flag == "-d"@ || flag == "-e"@ || flag == "-g"@ || flag == "-o"@
}

/// Whether a numeric option is set and `flag` is its flag.
spec fn numeric_emits(app: AppView, option: NumericOption, flag: Seq<char>) -> bool {
    option.flag() == flag && app.numeric_setting(option) is Some
}

/// Whether a free-text option is set and `flag` is its flag.
spec fn text_emits(app: AppView, option: TextOption, flag: Seq<char>) -> bool {
    option.flag() == flag && trimmed(app.free_text(option)).len() > 0
}

/// The flags of the test mode and the target.
proof fn lemma_target_flags(app: AppView, flag: Seq<char>)
    ensures
        has_flag(app.target_options(), flag) <==> flag == app.test_mode.flag_spec() || flag
            == "-u"@,
{
    let target = app.target_options();
    assert(target[0].flag == app.test_mode.flag_spec());
    assert(target[1].flag == "-u"@);
}

/// The flags of the connection-tuning options.
proof fn lemma_tuning_flags(app: AppView, flag: Seq<char>)
    ensures
        has_flag(app.tuning_options(), flag) <==> {
            ||| numeric_emits(app, NumericOption::Connections, flag)
            ||| numeric_emits(app, NumericOption::Rate, flag)
            ||| numeric_emits(app, NumericOption::Duration, flag)
            ||| numeric_emits(app, NumericOption::Interval, flag)
            ||| numeric_emits(app, NumericOption::ContentLength, flag)
            ||| numeric_emits(app, NumericOption::MaxRandomDataLen, flag)
        },
{
    broadcast use lemma_has_flag_concat;

    lemma_numeric_option(NumericOption::Connections.flag(), app.connections, 50);
    lemma_numeric_option(NumericOption::Rate.flag(), app.rate, 50);
    lemma_numeric_option(NumericOption::Duration.flag(), app.duration, 240);
    lemma_numeric_option(NumericOption::Interval.flag(), app.interval, 10);
    lemma_numeric_option(NumericOption::ContentLength.flag(), app.content_length, 4096);
    lemma_numeric_option(NumericOption::MaxRandomDataLen.flag(), app.max_random_data_len, 32);
}

/// The flags of the options that shape the HTTP request.
proof fn lemma_http_flags(app: AppView, flag: Seq<char>)
    ensures
        has_flag(app.http_options(), flag) <==> {
            ||| text_emits(app, TextOption::Verb, flag)
            ||| text_emits(app, TextOption::ContentType, flag)
            ||| text_emits(app, TextOption::Accept, flag)
            ||| text_emits(app, TextOption::Cookie, flag)
            ||| text_emits(app, TextOption::CustomHeader, flag)
        },
{
    broadcast use lemma_has_flag_concat;

    lemma_text_option(TextOption::Verb.flag(), app.verb);
    lemma_text_option(TextOption::ContentType.flag(), app.content_type);
    lemma_text_option(TextOption::Accept.flag(), app.accept);
    lemma_text_option(TextOption::Cookie.flag(), app.cookie);
    lemma_text_option(TextOption::CustomHeader.flag(), app.custom_header);
}

/// The flags of the proxy address and the probe interval.
proof fn lemma_proxy_group_flags(app: AppView, flag: Seq<char>)
    ensures
        has_flag(app.proxy_options(), flag) <==> {
            ||| app.proxy_mode.flag_spec() == Some(flag) && trimmed(app.proxy_addr).len() > 0
            ||| numeric_emits(app, NumericOption::ProbeInterval, flag)
        },
{
    broadcast use {lemma_has_flag_concat, lemma_single_option};

    lemma_text_option("-d"@, app.proxy_addr);
    lemma_text_option("-e"@, app.proxy_addr);
    lemma_numeric_option(NumericOption::ProbeInterval.flag(), app.probe_interval, 5);
}

/// The flags of the statistics options and the verbosity.
proof fn lemma_reporting_flags(app: AppView, flag: Seq<char>)
    ensures
        has_flag(app.reporting_options(), flag) <==> {
            ||| app.generate_stats && (flag == "-g"@ || (flag == "-o"@ && trimmed(
                app.stats_file_prefix,
            ).len() > 0))
            ||| numeric_emits(app, NumericOption::Verbosity, flag)
        },
{
    broadcast use {lemma_has_flag_concat, lemma_single_option};

    lemma_text_option("-o"@, app.stats_file_prefix);
    lemma_numeric_option(NumericOption::Verbosity.flag(), app.verbosity, 1);
}

/// The flags of the options that only one test mode takes.
proof fn lemma_mode_flags(app: AppView, flag: Seq<char>)
    ensures
        has_flag(app.mode_options(), flag) <==> {
            ||| numeric_emits(app, NumericOption::RangeStart, flag)
            ||| numeric_emits(app, NumericOption::RangeLimit, flag)
            ||| numeric_emits(app, NumericOption::PipelineFactor, flag)
            ||| numeric_emits(app, NumericOption::ReadInterval, flag)
            ||| numeric_emits(app, NumericOption::WindowLower, flag)
            ||| numeric_emits(app, NumericOption::WindowUpper, flag)
            ||| numeric_emits(app, NumericOption::ReadLen, flag)
        },
{
    broadcast use {lemma_has_flag_concat, lemma_single_option};

    lemma_numeric_option(NumericOption::RangeStart.flag(), app.range_start, 5);
    lemma_numeric_option(NumericOption::RangeLimit.flag(), app.range_limit, 2000);
    lemma_numeric_option(NumericOption::PipelineFactor.flag(), app.pipeline_factor, 1);
    lemma_numeric_option(NumericOption::ReadInterval.flag(), app.read_interval, 1);
    lemma_numeric_option(NumericOption::WindowLower.flag(), app.window_lower, 1);
    lemma_numeric_option(NumericOption::WindowUpper.flag(), app.window_upper, 512);
    lemma_numeric_option(NumericOption::ReadLen.flag(), app.read_len, 5);
}

/// The flags of the command line: the test mode and the target always, and
/// each other flag exactly where its option is set.
pub proof fn lemma_emitted_flags(app: AppView, flag: Seq<char>)
    ensures
        has_flag(app.options(), flag) <==> app.emits_flag(flag),
{
    lemma_target_flags(app, flag);
    lemma_tuning_flags(app, flag);
    lemma_http_flags(app, flag);
    lemma_proxy_group_flags(app, flag);
    lemma_reporting_flags(app, flag);
    lemma_mode_flags(app, flag);
    let a = app.target_options();
    let b = app.tuning_options();
    let c = app.http_options();
    let d = app.proxy_options();
    let e = app.reporting_options();
    let f = app.mode_options();
    lemma_has_flag_concat(a, b, flag);
    lemma_has_flag_concat(a + b, c, flag);
    lemma_has_flag_concat(a + b + c, d, flag);
    lemma_has_flag_concat(a + b + c + d, e, flag);
    lemma_has_flag_concat(a + b + c + d + e, f, flag);
    let numeric = exists|option: NumericOption|
        #[trigger] option.flag() == flag && app.numeric_setting(option) is Some;
    let text = exists|option: TextOption|
        #[trigger] option.flag() == flag && trimmed(app.free_text(option)).len() > 0;
    assert(numeric <==> has_flag(b, flag) || numeric_emits(app, NumericOption::ProbeInterval, flag)
        || numeric_emits(app, NumericOption::Verbosity, flag) || has_flag(f, flag)) by {
        if numeric {
            let option = choose|option: NumericOption|
                #[trigger] option.flag() == flag && app.numeric_setting(option) is Some;
            assert(numeric_emits(app, option, flag));
        }
    }
    assert(text <==> has_flag(c, flag)) by {
        if text {
            let option = choose|option: TextOption|
                #[trigger] option.flag() == flag && trimmed(app.free_text(option)).len() > 0;
            assert(text_emits(app, option, flag));
        }
    }
}

/// The character that tells one flag from another: the one behind the
/// hyphen.
spec fn letter(flag: Seq<char>) -> char {
    flag[1]
}

/// No two entries of the flag table share a flag.
pub proof fn lemma_flags_distinct()
    ensures
        forall|a: NumericOption, b: NumericOption|
            #![trigger a.flag(), b.flag()]
            a.flag() == b.flag() ==> a == b,
        forall|a: TextOption, b: TextOption|
            #![trigger a.flag(), b.flag()]
            a.flag() == b.flag() ==> a == b,
        forall|a: TestMode, b: TestMode|
            #![trigger a.flag_spec(), b.flag_spec()]
            a.flag_spec() == b.flag_spec() ==> a == b,
        forall|a: NumericOption, b: TextOption|
            #![trigger a.flag(), b.flag()]
            a.flag() != b.flag(),
        forall|a: NumericOption, b: TestMode|
            #![trigger a.flag(), b.flag_spec()]
            a.flag() != b.flag_spec(),
        forall|a: TextOption, b: TestMode|
            #![trigger a.flag(), b.flag_spec()]
            a.flag() != b.flag_spec(),
        forall|a: NumericOption|
            !is_fixed_flag(#[trigger] a.flag()),
        forall|a: TextOption|
            !is_fixed_flag(#[trigger] a.flag()),
        forall|a: TestMode|
            !is_fixed_flag(#[trigger] a.flag_spec()),
        "-u"@ != "-d"@ && "-u"@ != "-e"@ && "-u"@ != "-g"@ && "-u"@ != "-o"@,
        "-d"@ != "-e"@ && "-d"@ != "-g"@ && "-d"@ != "-o"@,
        "-e"@ != "-g"@ && "-e"@ != "-o"@,
        "-g"@ != "-o"@,
{
    reveal_strlit("-H");
    reveal_strlit("-B");
    reveal_strlit("-R");
    reveal_strlit("-X");
    reveal_strlit("-u");
    reveal_strlit("-c");
    reveal_strlit("-r");
    reveal_strlit("-l");
    reveal_strlit("-i");
    reveal_strlit("-s");
    reveal_strlit("-x");
    reveal_strlit("-t");
    reveal_strlit("-f");
    reveal_strlit("-m");
    reveal_strlit("-j");
    reveal_strlit("-1");
    reveal_strlit("-d");
    reveal_strlit("-e");
    reveal_strlit("-p");
    reveal_strlit("-g");
    reveal_strlit("-o");
    reveal_strlit("-v");
    reveal_strlit("-a");
    reveal_strlit("-b");
    reveal_strlit("-k");
    reveal_strlit("-n");
    reveal_strlit("-w");
    reveal_strlit("-y");
    reveal_strlit("-z");
    assert(letter("-u"@) == 'u' && letter("-d"@) == 'd' && letter("-e"@) == 'e' && letter("-g"@)
        == 'g' && letter("-o"@) == 'o');
    assert forall|a: NumericOption| true implies letter(#[trigger] a.flag()) == (match a {
        NumericOption::Connections => 'c',
        NumericOption::Rate => 'r',
        NumericOption::Duration => 'l',
        NumericOption::Interval => 'i',
        NumericOption::ContentLength => 's',
        NumericOption::MaxRandomDataLen => 'x',
        NumericOption::ProbeInterval => 'p',
        NumericOption::Verbosity => 'v',
        NumericOption::RangeStart => 'a',
        NumericOption::RangeLimit => 'b',
        NumericOption::PipelineFactor => 'k',
        NumericOption::ReadInterval => 'n',
        NumericOption::WindowLower => 'w',
        NumericOption::WindowUpper => 'y',
        NumericOption::ReadLen => 'z',
    }) by {}
    assert forall|a: TextOption| true implies letter(#[trigger] a.flag()) == (match a {
        TextOption::Verb => 't',
        TextOption::ContentType => 'f',
        TextOption::Accept => 'm',
        TextOption::Cookie => 'j',
        TextOption::CustomHeader => '1',
    }) by {}
    assert forall|a: TestMode| true implies letter(#[trigger] a.flag_spec()) == (match a {
        TestMode::SlowHeaders => 'H',
        TestMode::SlowBody => 'B',
        TestMode::RangeAttack => 'R',
        TestMode::SlowRead => 'X',
    }) by {}
}

/// A numeric option that is set stands among the options with the
/// canonical text of its number.
proof fn lemma_numeric_member(app: AppView, option: NumericOption)
    requires
        app.numeric_setting(option) is Some,
    ensures
        app.options().contains(
            CliOption::valued(option.flag(), decimal(app.numeric_setting(option)->0 as int)),
        ),
{
    broadcast use lemma_contains_concat;

    lemma_numeric_option(option.flag(), app.numeric_text(option), option.default_value());
    let member = CliOption::valued(
        option.flag(),
        decimal(app.numeric_setting(option)->0 as int),
    );
    assert(app.numeric(option) == seq![member]);
    assert(seq![member][0] == member);
    assert(app.numeric(option).contains(member));
    match option {
        NumericOption::Connections
        | NumericOption::Rate
        | NumericOption::Duration
        | NumericOption::Interval
        | NumericOption::ContentLength
        | NumericOption::MaxRandomDataLen => {
            assert(app.tuning_options().contains(member));
        },
        NumericOption::ProbeInterval => {
            assert(app.proxy_options().contains(member));
        },
        NumericOption::Verbosity => {
            assert(app.reporting_options().contains(member));
        },
        _ => {
            assert(app.mode_options().contains(member));
        },
    }
}

/// The flag of a numeric option is on the command line exactly where the
/// option applies in the selected test mode and its field asks for a number
/// other than the default. It then stands with the canonical text of that
/// number right behind it.
pub proof fn lemma_numeric_flag(app: AppView, option: NumericOption)
    ensures
        has_flag(app.options(), option.flag()) <==> app.numeric_setting(option) is Some,
        app.numeric_setting(option) matches Some(n) ==> has_pair(
            app.args(),
            option.flag(),
            decimal(n as int),
        ),
{
    lemma_flags_distinct();
    lemma_emitted_flags(app, option.flag());
    if app.numeric_setting(option) is Some {
        lemma_numeric_member(app, option);
        lemma_tokens_pair(
            app.options(),
            option.flag(),
            decimal(app.numeric_setting(option)->0 as int),
        );
    }
}

/// A numeric field that reads as the option's default keeps the option's
/// flag off the command line, unless the value of some option is that very
/// text.
pub proof fn lemma_default_keeps_flag_out(app: AppView, option: NumericOption)
    requires
        parse_i64_spec(trimmed(app.numeric_text(option))) matches Some(n) && n
            == option.default_value(),
        !has_value(app.options(), option.flag()),
    ensures
        !app.args().contains(option.flag()),
{
    lemma_numeric_flag(app, option);
    lemma_tokens_contains(app.options(), option.flag());
}

/// A numeric field that reads as an integer other than the option's default
/// puts the option's flag on the command line, with the canonical text of
/// that integer right behind it, in every test mode that takes the option.
/// That text is the integer's exact value: a field that holds it asks for
/// the same integer.
pub proof fn lemma_changed_value_is_emitted(app: AppView, option: NumericOption, n: i64)
    requires
        option.applies_in(app.test_mode),
        parse_i64_spec(trimmed(app.numeric_text(option))) == Some(n),
        n != option.default_value(),
    ensures
        app.args().contains(option.flag()),
        has_pair(app.args(), option.flag(), decimal(n as int)),
        numeric_value(decimal(n as int), option.default_value()) == Some(n),
{
    lemma_numeric_flag(app, option);
    lemma_tokens_contains(app.options(), option.flag());
    lemma_numeric_value_of_decimal(n, option.default_value());
}

/// An option that belongs to another test mode than the selected one keeps
/// its flag off the command line whatever its field holds, unless the value
/// of some option is that very text.
pub proof fn lemma_foreign_mode_flag_absent(app: AppView, option: NumericOption)
    requires
        !option.applies_in(app.test_mode),
        !has_value(app.options(), option.flag()),
    ensures
        !has_flag(app.options(), option.flag()),
        !app.args().contains(option.flag()),
{
    lemma_numeric_flag(app, option);
    lemma_tokens_contains(app.options(), option.flag());
}

/// Each proxy flag is on the command line exactly where its proxy mode is
/// selected and the trimmed address is not empty: never both, and neither
/// without a proxy or without an address.
pub proof fn lemma_proxy_flags(app: AppView)
    ensures
        has_flag(app.options(), "-d"@) <==> app.proxy_mode == ProxyMode::Http && trimmed(
            app.proxy_addr,
        ).len() > 0,
        has_flag(app.options(), "-e"@) <==> app.proxy_mode == ProxyMode::Probe && trimmed(
            app.proxy_addr,
        ).len() > 0,
        !(has_flag(app.options(), "-d"@) && has_flag(app.options(), "-e"@)),
{
    lemma_flags_distinct();
    lemma_emitted_flags(app, "-d"@);
    lemma_emitted_flags(app, "-e"@);
    assert(is_fixed_flag("-d"@) && is_fixed_flag("-e"@));
}

/// At most one of the two proxy flags stands on the command line, unless
/// the value of some option is the text of a proxy flag that is not already
/// there as a flag.
pub proof fn lemma_proxy_tokens_exclusive(app: AppView)
    requires
        has_flag(app.options(), "-d"@) ==> !has_value(app.options(), "-e"@),
        has_flag(app.options(), "-e"@) ==> !has_value(app.options(), "-d"@),
        !(has_value(app.options(), "-d"@) && has_value(app.options(), "-e"@)),
    ensures
        !(app.args().contains("-d"@) && app.args().contains("-e"@)),
{
    lemma_proxy_flags(app);
    lemma_tokens_contains(app.options(), "-d"@);
    lemma_tokens_contains(app.options(), "-e"@);
}

/// Without a proxy, or without a proxy address, neither proxy flag stands
/// on the command line, unless the value of some option is that very text.
pub proof fn lemma_no_proxy_no_proxy_tokens(app: AppView)
    requires
        app.proxy_mode == ProxyMode::Direct || trimmed(app.proxy_addr).len() == 0,
        !has_value(app.options(), "-d"@),
        !has_value(app.options(), "-e"@),
    ensures
        !app.args().contains("-d"@),
        !app.args().contains("-e"@),
{
    lemma_proxy_flags(app);
    lemma_tokens_contains(app.options(), "-d"@);
    lemma_tokens_contains(app.options(), "-e"@);
}

/// The statistics flag is on the command line exactly where statistics are
/// asked for, and the flag of the prefix only together with it.
pub proof fn lemma_stats_flags(app: AppView)
    ensures
        has_flag(app.options(), "-g"@) <==> app.generate_stats,
        has_flag(app.options(), "-o"@) <==> app.generate_stats && trimmed(
            app.stats_file_prefix,
        ).len() > 0,
        has_flag(app.options(), "-o"@) ==> has_flag(app.options(), "-g"@),
{
    lemma_flags_distinct();
    lemma_emitted_flags(app, "-g"@);
    lemma_emitted_flags(app, "-o"@);
    assert(is_fixed_flag("-g"@) && is_fixed_flag("-o"@));
}

/// Where the flag of the statistics prefix stands on the command line, the
/// statistics flag stands there too, unless the value of some option is the
/// text of the prefix flag while statistics are not asked for.
pub proof fn lemma_stats_prefix_needs_stats(app: AppView)
    requires
        has_value(app.options(), "-o"@) ==> app.generate_stats || has_value(
            app.options(),
            "-g"@,
        ),
    ensures
        app.args().contains("-o"@) ==> app.args().contains("-g"@),
{
    lemma_stats_flags(app);
    lemma_tokens_contains(app.options(), "-o"@);
    lemma_tokens_contains(app.options(), "-g"@);
}

/// The flag of a free-text option is on the command line exactly where the
/// trimmed text of its field is not empty. It then stands with that trimmed
/// text right behind it, and trimming that value again changes nothing.
pub proof fn lemma_text_flag(app: AppView, option: TextOption)
    ensures
        has_flag(app.options(), option.flag()) <==> trimmed(app.free_text(option)).len() > 0,
        trimmed(app.free_text(option)).len() > 0 ==> has_pair(
            app.args(),
            option.flag(),
            trimmed(app.free_text(option)),
        ),
        trimmed(trimmed(app.free_text(option))) == trimmed(app.free_text(option)),
{
    broadcast use lemma_contains_concat;

    let value = trimmed(app.free_text(option));
    lemma_flags_distinct();
    lemma_emitted_flags(app, option.flag());
    lemma_trimmed_idempotent(app.free_text(option));
    if value.len() > 0 {
        let member = CliOption::valued(option.flag(), value);
        lemma_text_option(option.flag(), app.free_text(option));
        assert(app.text(option) == seq![member]);
        assert(seq![member][0] == member);
        assert(app.text(option).contains(member));
        assert(app.http_options().contains(member));
        lemma_tokens_pair(app.options(), option.flag(), value);
    }
}

/// No numeric option is written with a value that reads as a hyphen and a
/// character that is no digit.
proof fn lemma_numeric_value_is_no_flag(app: AppView, option: NumericOption, flag: Seq<char>)
    requires
        flag.len() == 2 && flag[0] == '-' && !is_digit(flag[1]),
    ensures
        !has_value(app.numeric(option), flag),
{
    lemma_numeric_option_value(
        option.flag(),
        app.numeric_text(option),
        option.default_value(),
        flag,
    );
    match numeric_value(app.numeric_text(option), option.default_value()) {
        Some(n) => {
            lemma_decimal_shape(n as int);
            assert(flag.last() == flag[1]);
        },
        None => {},
    }
}

/// No free-text option is written with the value `value`, where the trimmed
/// text of none of them is `value`.
proof fn lemma_http_values(app: AppView, value: Seq<char>)
    requires
        forall|option: TextOption| trimmed(#[trigger] app.free_text(option)) != value,
    ensures
        !has_value(app.http_options(), value),
{
    broadcast use lemma_has_value_concat;

    lemma_text_option_value(TextOption::Verb.flag(), app.free_text(TextOption::Verb), value);
    lemma_text_option_value(
        TextOption::ContentType.flag(),
        app.free_text(TextOption::ContentType),
        value,
    );
    lemma_text_option_value(TextOption::Accept.flag(), app.free_text(TextOption::Accept), value);
    lemma_text_option_value(TextOption::Cookie.flag(), app.free_text(TextOption::Cookie), value);
    lemma_text_option_value(
        TextOption::CustomHeader.flag(),
        app.free_text(TextOption::CustomHeader),
        value,
    );
}

/// No value on the command line reads as `flag`, a hyphen and a character
/// that is no digit, where neither the URL nor the trimmed text of a
/// free-text field, of the proxy address or of the statistics prefix is
/// `flag`.
pub proof fn lemma_values_are_no_flag(app: AppView, flag: Seq<char>)
    requires
        flag.len() == 2 && flag[0] == '-' && !is_digit(flag[1]),
        app.url != flag,
        forall|option: TextOption| trimmed(#[trigger] app.free_text(option)) != flag,
        trimmed(app.proxy_addr) != flag,
        trimmed(app.stats_file_prefix) != flag,
    ensures
        !has_value(app.options(), flag),
{
    let a = app.target_options();
    let b = app.tuning_options();
    let c = app.http_options();
    let d = app.proxy_options();
    let e = app.reporting_options();
    let f = app.mode_options();
    assert(!has_value(a, flag)) by {
        if has_value(a, flag) {
            let i = choose|i: int| 0 <= i < a.len() && (#[trigger] a[i]).value == Some(flag);
            assert(a[0].value is None);
            assert(a[1].value == Some(app.url));
        }
    }
    assert(!has_value(b, flag)) by {
        broadcast use lemma_has_value_concat;

        lemma_numeric_value_is_no_flag(app, NumericOption::Connections, flag);
        lemma_numeric_value_is_no_flag(app, NumericOption::Rate, flag);
        lemma_numeric_value_is_no_flag(app, NumericOption::Duration, flag);
        lemma_numeric_value_is_no_flag(app, NumericOption::Interval, flag);
        lemma_numeric_value_is_no_flag(app, NumericOption::ContentLength, flag);
        lemma_numeric_value_is_no_flag(app, NumericOption::MaxRandomDataLen, flag);
    }
    lemma_http_values(app, flag);
    assert(!has_value(d, flag)) by {
        broadcast use {lemma_has_value_concat, lemma_single_option_value};

        lemma_text_option_value("-d"@, app.proxy_addr, flag);
        lemma_text_option_value("-e"@, app.proxy_addr, flag);
        lemma_numeric_value_is_no_flag(app, NumericOption::ProbeInterval, flag);
    }
    assert(!has_value(e, flag)) by {
        broadcast use {lemma_has_value_concat, lemma_single_option_value};

        lemma_text_option_value("-o"@, app.stats_file_prefix, flag);
        lemma_numeric_value_is_no_flag(app, NumericOption::Verbosity, flag);
    }
    assert(!has_value(f, flag)) by {
        broadcast use {lemma_has_value_concat, lemma_single_option_value};

        lemma_numeric_value_is_no_flag(app, NumericOption::RangeStart, flag);
        lemma_numeric_value_is_no_flag(app, NumericOption::RangeLimit, flag);
        lemma_numeric_value_is_no_flag(app, NumericOption::PipelineFactor, flag);
        lemma_numeric_value_is_no_flag(app, NumericOption::ReadInterval, flag);
        lemma_numeric_value_is_no_flag(app, NumericOption::WindowLower, flag);
        lemma_numeric_value_is_no_flag(app, NumericOption::WindowUpper, flag);
        lemma_numeric_value_is_no_flag(app, NumericOption::ReadLen, flag);
    }
    lemma_has_value_concat(a, b, flag);
    lemma_has_value_concat(a + b, c, flag);
    lemma_has_value_concat(a + b + c, d, flag);
    lemma_has_value_concat(a + b + c + d, e, flag);
    lemma_has_value_concat(a + b + c + d + e, f, flag);
}

} // verus!

//! The parameter set of a test run, and the command line that it stands for.

use crate::mode::{ProxyMode, TestMode};
use crate::options::{
    lemma_tokens_concat, lemma_tokens_single, numeric_option, numeric_value, push_opt_num,
    push_opt_text, text_option, tokens, CliOption, NumericOption, TextOption,
};
use crate::text::{contains_whitespace, has_whitespace, trim, trimmed};
use vstd::prelude::*;

verus! {

/// Everything a person can set before a run. The numeric fields are kept as
/// the text that was typed.
#[derive(Debug, Clone)]
pub struct App {
    pub url: String,
    pub test_mode: TestMode,
    pub connections: String,
    pub rate: String,
    pub duration: String,
    pub interval: String,
    pub verb: String,
    pub content_length: String,
    pub max_random_data_len: String,
    pub content_type: String,
    pub accept: String,
    pub cookie: String,
    pub custom_header: String,
    pub proxy_mode: ProxyMode,
    pub proxy_addr: String,
    pub generate_stats: bool,
    pub stats_file_prefix: String,
    pub verbosity: String,
    pub range_start: String,
    pub range_limit: String,
    pub pipeline_factor: String,
    pub probe_interval: String,
    pub read_interval: String,
    pub read_len: String,
    pub window_lower: String,
    pub window_upper: String,
    pub custom_binary_path: String,
}

/// A parameter set as plain values.
pub struct AppView {
    pub url: Seq<char>,
    pub test_mode: TestMode,
    pub connections: Seq<char>,
    pub rate: Seq<char>,
    pub duration: Seq<char>,
    pub interval: Seq<char>,
    pub verb: Seq<char>,
    pub content_length: Seq<char>,
    pub max_random_data_len: Seq<char>,
    pub content_type: Seq<char>,
    pub accept: Seq<char>,
    pub cookie: Seq<char>,
    pub custom_header: Seq<char>,
    pub proxy_mode: ProxyMode,
    pub proxy_addr: Seq<char>,
    pub generate_stats: bool,
    pub stats_file_prefix: Seq<char>,
    pub verbosity: Seq<char>,
    pub range_start: Seq<char>,
    pub range_limit: Seq<char>,
    pub pipeline_factor: Seq<char>,
    pub probe_interval: Seq<char>,
    pub read_interval: Seq<char>,
    pub read_len: Seq<char>,
    pub window_lower: Seq<char>,
    pub window_upper: Seq<char>,
    pub custom_binary_path: Seq<char>,
}

impl View for App {
    type V = AppView;

    open spec fn view(&self) -> AppView {
        AppView {
            url: self.url@,
            test_mode: self.test_mode,
            connections: self.connections@,
            rate: self.rate@,
            duration: self.duration@,
            interval: self.interval@,
            verb: self.verb@,
            content_length: self.content_length@,
            max_random_data_len: self.max_random_data_len@,
            content_type: self.content_type@,
            accept: self.accept@,
            cookie: self.cookie@,
            custom_header: self.custom_header@,
            proxy_mode: self.proxy_mode,
            proxy_addr: self.proxy_addr@,
            generate_stats: self.generate_stats,
            stats_file_prefix: self.stats_file_prefix@,
            verbosity: self.verbosity@,
            range_start: self.range_start@,
            range_limit: self.range_limit@,
            pipeline_factor: self.pipeline_factor@,
            probe_interval: self.probe_interval@,
            read_interval: self.read_interval@,
            read_len: self.read_len@,
            window_lower: self.window_lower@,
            window_upper: self.window_upper@,
            custom_binary_path: self.custom_binary_path@,
        }
    }
}

/// A token as the preview shows it: between double quotes where it holds
/// whitespace, as it is where it holds none.
pub open spec fn quoted(token: Seq<char>) -> Seq<char> {
    if has_whitespace(token) {
        "\""@ + token + "\""@
    } else {
        token
    }
}

/// The part of the preview that follows the binary: each token after a
/// space.
pub open spec fn preview_tail(args: Seq<Seq<char>>) -> Seq<char>
    decreases args.len(),
{
    if args.len() == 0 {
        Seq::empty()
    } else {
        preview_tail(args.drop_last()) + " "@ + quoted(args.last())
    }
}

impl AppView {
    /// The built-in parameter set.
    pub open spec fn defaults() -> AppView {
        AppView {
            url: "http://localhost/"@,
            test_mode: TestMode::SlowHeaders,
            connections: "50"@,
            rate: "50"@,
            duration: "240"@,
            interval: "10"@,
            verb: Seq::empty(),
            content_length: "4096"@,
            max_random_data_len: "32"@,
            content_type: Seq::empty(),
            accept: Seq::empty(),
            cookie: Seq::empty(),
            custom_header: Seq::empty(),
            proxy_mode: ProxyMode::Direct,
            proxy_addr: Seq::empty(),
            generate_stats: false,
            stats_file_prefix: "stats"@,
            verbosity: "1"@,
            range_start: "5"@,
            range_limit: "2000"@,
            pipeline_factor: "1"@,
            probe_interval: "5"@,
            read_interval: "1"@,
            read_len: "5"@,
            window_lower: "1"@,
            window_upper: "512"@,
            custom_binary_path: Seq::empty(),
        }
    }

    /// The text held for a numeric option.
    pub open spec fn numeric_text(self, option: NumericOption) -> Seq<char> {
        match option {
            NumericOption::Connections => self.connections,
            NumericOption::Rate => self.rate,
            NumericOption::Duration => self.duration,
            NumericOption::Interval => self.interval,
            NumericOption::ContentLength => self.content_length,
            NumericOption::MaxRandomDataLen => self.max_random_data_len,
            NumericOption::ProbeInterval => self.probe_interval,
            NumericOption::Verbosity => self.verbosity,
            NumericOption::RangeStart => self.range_start,
            NumericOption::RangeLimit => self.range_limit,
            NumericOption::PipelineFactor => self.pipeline_factor,
            NumericOption::ReadInterval => self.read_interval,
            NumericOption::WindowLower => self.window_lower,
            NumericOption::WindowUpper => self.window_upper,
            NumericOption::ReadLen => self.read_len,
        }
    }

    /// The text held for a free-text option.
    pub open spec fn free_text(self, option: TextOption) -> Seq<char> {
        match option {
            TextOption::Verb => self.verb,
            TextOption::ContentType => self.content_type,
            TextOption::Accept => self.accept,
            TextOption::Cookie => self.cookie,
            TextOption::CustomHeader => self.custom_header,
        }
    }

    /// The number that a numeric option is set to: what its field asks
    /// for, where the option applies in the selected test mode.
    pub open spec fn numeric_setting(self, option: NumericOption) -> Option<i64> {
        if option.applies_in(self.test_mode) {
            numeric_value(self.numeric_text(option), option.default_value())
        } else {
            None
        }
    }

    /// What a numeric option contributes to the command line.
    pub open spec fn numeric(self, option: NumericOption) -> Seq<CliOption> {
        numeric_option(option.flag(), self.numeric_text(option), option.default_value())
    }

    /// What a free-text option contributes to the command line.
    pub open spec fn text(self, option: TextOption) -> Seq<CliOption> {
        text_option(option.flag(), self.free_text(option))
    }

    /// The test mode and the target: always there, the URL as it was typed.
    pub open spec fn target_options(self) -> Seq<CliOption> {
        seq![CliOption::bare(self.test_mode.flag_spec()), CliOption::valued("-u"@, self.url)]
    }

    /// The connection-tuning options.
    pub open spec fn tuning_options(self) -> Seq<CliOption> {
        self.numeric(NumericOption::Connections) + self.numeric(NumericOption::Rate)
            + self.numeric(NumericOption::Duration) + self.numeric(NumericOption::Interval)
            + self.numeric(NumericOption::ContentLength) + self.numeric(
            NumericOption::MaxRandomDataLen,
        )
    }

    /// The options that shape the HTTP request.
    pub open spec fn http_options(self) -> Seq<CliOption> {
        self.text(TextOption::Verb) + self.text(TextOption::ContentType) + self.text(
            TextOption::Accept,
        ) + self.text(TextOption::Cookie) + self.text(TextOption::CustomHeader)
    }

    /// The proxy address, under the flag of the selected proxy mode, and the
    /// probe interval.
    pub open spec fn proxy_options(self) -> Seq<CliOption> {
        (match self.proxy_mode.flag_spec() {
            Some(flag) => text_option(flag, self.proxy_addr),
            None => Seq::empty(),
        }) + self.numeric(NumericOption::ProbeInterval)
    }

    /// The statistics flag with the prefix of the output files, where
    /// statistics are asked for, and the verbosity.
    pub open spec fn reporting_options(self) -> Seq<CliOption> {
        (if self.generate_stats {
            seq![CliOption::bare("-g"@)] + text_option("-o"@, self.stats_file_prefix)
        } else {
            Seq::empty()
        }) + self.numeric(NumericOption::Verbosity)
    }

    /// The options that only the selected test mode takes.
    pub open spec fn mode_options(self) -> Seq<CliOption> {
        match self.test_mode {
            TestMode::RangeAttack => self.numeric(NumericOption::RangeStart) + self.numeric(
                NumericOption::RangeLimit,
            ),
            TestMode::SlowRead => self.numeric(NumericOption::PipelineFactor) + self.numeric(
                NumericOption::ReadInterval,
            ) + self.numeric(NumericOption::WindowLower) + self.numeric(NumericOption::WindowUpper)
                + self.numeric(NumericOption::ReadLen),
            _ => Seq::empty(),
        }
    }

    /// The options of the command line, in their canonical order.
    pub open spec fn options(self) -> Seq<CliOption> {
        self.target_options() + self.tuning_options() + self.http_options() + self.proxy_options()
            + self.reporting_options() + self.mode_options()
    }

    /// Whether the command line holds an option with the flag `flag`.
    pub open spec fn emits_flag(self, flag: Seq<char>) -> bool {
        ||| flag == self.test_mode.flag_spec()
        ||| flag == "-u"@
        ||| exists|option: NumericOption|
            #[trigger] option.flag() == flag && self.numeric_setting(option) is Some
        ||| exists|option: TextOption|
            #[trigger] option.flag() == flag && trimmed(self.free_text(option)).len() > 0
        ||| self.proxy_mode.flag_spec() == Some(flag) && trimmed(self.proxy_addr).len() > 0
        ||| self.generate_stats && (flag == "-g"@ || (flag == "-o"@ && trimmed(
            self.stats_file_prefix,
        ).len() > 0))
    }

    /// The argument vector.
    pub open spec fn args(self) -> Seq<Seq<char>> {
        tokens(self.options())
    }

    /// The binary to run: the trimmed custom path, or the load tester's own
    /// name where that is empty.
    pub open spec fn effective_binary(self) -> Seq<char> {
        if trimmed(self.custom_binary_path).len() == 0 {
            "slowhttptest"@
        } else {
            trimmed(self.custom_binary_path)
        }
    }

    /// The command on one line, for a person to read: the binary and then
    /// each argument, every one of them between double quotes where it holds
    /// whitespace.
    pub open spec fn command_preview(self) -> Seq<char> {
        quoted(self.effective_binary()) + preview_tail(self.args())
    }
}

/// Appends `token` to `out` as the preview shows it.
fn push_quoted(out: &mut String, token: &str)
    ensures
        final(out)@ == old(out)@ + quoted(token@),
{
    if contains_whitespace(token) {
        out.append("\"");
        out.append(token);
        out.append("\"");
        assert(out@ =~= old(out)@ + quoted(token@));
    } else {
        out.append(token);
    }
}

impl Default for App {
    fn default() -> (app: Self)
        ensures
            app@ == AppView::defaults(),
    {
        App {
            url: "http://localhost/".to_owned(),
            test_mode: TestMode::SlowHeaders,
            connections: "50".to_owned(),
            rate: "50".to_owned(),
            duration: "240".to_owned(),
            interval: "10".to_owned(),
            verb: String::new(),
            content_length: "4096".to_owned(),
            max_random_data_len: "32".to_owned(),
            content_type: String::new(),
            accept: String::new(),
            cookie: String::new(),
            custom_header: String::new(),
            proxy_mode: ProxyMode::Direct,
            proxy_addr: String::new(),
            generate_stats: false,
            stats_file_prefix: "stats".to_owned(),
            verbosity: "1".to_owned(),
            range_start: "5".to_owned(),
            range_limit: "2000".to_owned(),
            pipeline_factor: "1".to_owned(),
            probe_interval: "5".to_owned(),
            read_interval: "1".to_owned(),
            read_len: "5".to_owned(),
            window_lower: "1".to_owned(),
            window_upper: "512".to_owned(),
            custom_binary_path: String::new(),
        }
    }
}

impl App {
    /// Builds the argument vector for the load tester.
    pub fn build_args(&self) -> (args: Vec<String>)
        ensures
            args.deep_view() == self@.args(),
    {
        broadcast use lemma_tokens_concat;

        let mut args: Vec<String> = Vec::new();
        self.push_target(&mut args);
        self.push_tuning(&mut args);
        self.push_http(&mut args);
        self.push_proxy(&mut args);
        self.push_reporting(&mut args);
        self.push_mode_specific(&mut args);
        assert(args.deep_view() =~= tokens(self@.options()));
        args
    }

    /// Appends the test mode and the target.
    fn push_target(&self, args: &mut Vec<String>)
        ensures
            final(args).deep_view() == old(args).deep_view() + tokens(self@.target_options()),
    {
        broadcast use {lemma_tokens_concat, lemma_tokens_single};

        args.push(self.test_mode.flag().to_owned());
        args.push("-u".to_owned());
        args.push(self.url.clone());
        proof {
            let mode = CliOption::bare(self.test_mode.flag_spec());
            let target = CliOption::valued("-u"@, self.url@);
            assert(self@.target_options() =~= seq![mode] + seq![target]);
            assert(args.deep_view() =~= old(args).deep_view() + tokens(self@.target_options()));
        }
    }

    /// Appends the connection-tuning options.
    fn push_tuning(&self, args: &mut Vec<String>)
        ensures
            final(args).deep_view() == old(args).deep_view() + tokens(self@.tuning_options()),
    {
        broadcast use lemma_tokens_concat;

        push_opt_num(args, "-c", &self.connections, 50);
        push_opt_num(args, "-r", &self.rate, 50);
        push_opt_num(args, "-l", &self.duration, 240);
        push_opt_num(args, "-i", &self.interval, 10);
        push_opt_num(args, "-s", &self.content_length, 4096);
        push_opt_num(args, "-x", &self.max_random_data_len, 32);
        assert(args.deep_view() =~= old(args).deep_view() + tokens(self@.tuning_options()));
    }

    /// Appends the options that shape the HTTP request.
    fn push_http(&self, args: &mut Vec<String>)
        ensures
            final(args).deep_view() == old(args).deep_view() + tokens(self@.http_options()),
    {
        broadcast use lemma_tokens_concat;

        push_opt_text(args, "-t", &self.verb);
        push_opt_text(args, "-f", &self.content_type);
        push_opt_text(args, "-m", &self.accept);
        push_opt_text(args, "-j", &self.cookie);
        push_opt_text(args, "-1", &self.custom_header);
        assert(args.deep_view() =~= old(args).deep_view() + tokens(self@.http_options()));
    }

    /// Appends the proxy address, where a proxy is selected, and the probe
    /// interval.
    fn push_proxy(&self, args: &mut Vec<String>)
        ensures
            final(args).deep_view() == old(args).deep_view() + tokens(self@.proxy_options()),
    {
        broadcast use lemma_tokens_concat;

        if let Some(flag) = self.proxy_mode.flag() {
            push_opt_text(args, flag, &self.proxy_addr);
        }
        push_opt_num(args, "-p", &self.probe_interval, 5);
        assert(args.deep_view() =~= old(args).deep_view() + tokens(self@.proxy_options()));
    }

    /// Appends the statistics options and the verbosity.
    fn push_reporting(&self, args: &mut Vec<String>)
        ensures
            final(args).deep_view() == old(args).deep_view() + tokens(self@.reporting_options()),
    {
        broadcast use {lemma_tokens_concat, lemma_tokens_single};

        if self.generate_stats {
            args.push("-g".to_owned());
            push_opt_text(args, "-o", &self.stats_file_prefix);
        }
        push_opt_num(args, "-v", &self.verbosity, 1);
        assert(args.deep_view() =~= old(args).deep_view() + tokens(self@.reporting_options()));
    }

    /// Appends the options that only the selected test mode takes.
    fn push_mode_specific(&self, args: &mut Vec<String>)
        ensures
            final(args).deep_view() == old(args).deep_view() + tokens(self@.mode_options()),
    {
        broadcast use lemma_tokens_concat;

        match self.test_mode {
            TestMode::RangeAttack => {
                push_opt_num(args, "-a", &self.range_start, 5);
                push_opt_num(args, "-b", &self.range_limit, 2000);
            },
            TestMode::SlowRead => {
                push_opt_num(args, "-k", &self.pipeline_factor, 1);
                push_opt_num(args, "-n", &self.read_interval, 1);
                push_opt_num(args, "-w", &self.window_lower, 1);
                push_opt_num(args, "-y", &self.window_upper, 512);
                push_opt_num(args, "-z", &self.read_len, 5);
            },
            _ => {},
        }
        assert(args.deep_view() =~= old(args).deep_view() + tokens(self@.mode_options()));
    }

    /// The command on one line: the binary, then each argument after a
    /// space. The binary and the arguments alike stand between double quotes
    /// where they hold whitespace.
    pub fn build_command_preview(&self) -> (preview: String)
        ensures
            preview@ == self@.command_preview(),
    {
        let binary = self.effective_binary();
        let args = self.build_args();
        let mut preview = String::new();
        push_quoted(&mut preview, binary.as_str());
        assert(preview@ =~= quoted(self@.effective_binary()));
        for i in 0..args.len()
            invariant
                args.deep_view() == self@.args(),
                preview@ == quoted(self@.effective_binary()) + preview_tail(
                    args.deep_view().subrange(0, i as int),
                ),
        {
            let token = args[i].as_str();
            proof {
                let seen = args.deep_view().subrange(0, i + 1);
                assert(seen.drop_last() =~= args.deep_view().subrange(0, i as int));
                assert(seen.last() == token@);
            }
            preview.append(" ");
            push_quoted(&mut preview, token);
            assert(preview@ =~= quoted(self@.effective_binary()) + preview_tail(
                args.deep_view().subrange(0, i + 1),
            ));
        }
        assert(args.deep_view().subrange(0, args.len() as int) =~= args.deep_view());
        preview
    }

    /// The binary to run.
    pub fn effective_binary(&self) -> (binary: String)
        ensures
            binary@ == self@.effective_binary(),
    {
        let path = trim(&self.custom_binary_path);
        if path.is_empty() {
            "slowhttptest".to_owned()
        } else {
            path.to_owned()
        }
    }
}

} // verus!

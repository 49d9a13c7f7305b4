//! Command-line options as the load tester takes them: a flag, or a flag
//! followed by a value. The flag table lives here, and the rules by which a
//! field of text becomes an option or is left out.

use crate::mode::TestMode;
use crate::number::{
    decimal, format_i64, lemma_decimal_is_trimmed, lemma_parse_of_decimal, parse_i64, parse_i64_spec,
};
use crate::text::{trim, trimmed};
use vstd::prelude::*;

verus! {

/// One option on the command line.
pub struct CliOption {
    pub flag: Seq<char>,
    pub value: Option<Seq<char>>,
}

impl CliOption {
    /// An option that is a flag alone.
    pub open spec fn bare(flag: Seq<char>) -> CliOption {
        CliOption { flag, value: None }
    }

    /// An option that is a flag followed by a value.
    pub open spec fn valued(flag: Seq<char>, value: Seq<char>) -> CliOption {
        CliOption { flag, value: Some(value) }
    }

    /// The command-line tokens of this option: one or two.
    pub open spec fn tokens(self) -> Seq<Seq<char>> {
        match self.value {
            Some(value) => seq![self.flag, value],
            None => seq![self.flag],
        }
    }
}

/// The command-line tokens of a list of options, in order.
pub open spec fn tokens(options: Seq<CliOption>) -> Seq<Seq<char>>
    decreases options.len(),
{
    if options.len() == 0 {
        Seq::empty()
    } else {
        tokens(options.drop_last()) + options.last().tokens()
    }
}

/// Whether one of `options` has the flag `flag`.
pub open spec fn has_flag(options: Seq<CliOption>, flag: Seq<char>) -> bool {
    exists|i: int| 0 <= i < options.len() && (#[trigger] options[i]).flag == flag
}

/// Whether one of `options` has the value `value`.
pub open spec fn has_value(options: Seq<CliOption>, value: Seq<char>) -> bool {
    exists|i: int| 0 <= i < options.len() && (#[trigger] options[i]).value == Some(value)
}

/// Whether `flag` stands in `tokens` with `value` right behind it.
pub open spec fn has_pair(tokens: Seq<Seq<char>>, flag: Seq<char>, value: Seq<char>) -> bool {
    exists|i: int|
        0 <= i && i + 1 < tokens.len() && #[trigger] tokens[i] == flag && tokens[i + 1] == value
}

/// The tunable numeric options.
pub enum NumericOption {
    Connections,
    Rate,
    Duration,
    Interval,
    ContentLength,
    MaxRandomDataLen,
    ProbeInterval,
    Verbosity,
    RangeStart,
    RangeLimit,
    PipelineFactor,
    ReadInterval,
    WindowLower,
    WindowUpper,
    ReadLen,
}

impl NumericOption {
    pub open spec fn flag(self) -> Seq<char> {
        match self {
            NumericOption::Connections => "-c"@,
            NumericOption::Rate => "-r"@,
            NumericOption::Duration => "-l"@,
            NumericOption::Interval => "-i"@,
            NumericOption::ContentLength => "-s"@,
            NumericOption::MaxRandomDataLen => "-x"@,
            NumericOption::ProbeInterval => "-p"@,
            NumericOption::Verbosity => "-v"@,
            NumericOption::RangeStart => "-a"@,
            NumericOption::RangeLimit => "-b"@,
            NumericOption::PipelineFactor => "-k"@,
            NumericOption::ReadInterval => "-n"@,
            NumericOption::WindowLower => "-w"@,
            NumericOption::WindowUpper => "-y"@,
            NumericOption::ReadLen => "-z"@,
        }
    }

    /// The value that the load tester uses where the option is not given.
    pub open spec fn default_value(self) -> int {
        match self {
            NumericOption::Connections => 50,
            NumericOption::Rate => 50,
            NumericOption::Duration => 240,
            NumericOption::Interval => 10,
            NumericOption::ContentLength => 4096,
            NumericOption::MaxRandomDataLen => 32,
            NumericOption::ProbeInterval => 5,
            NumericOption::Verbosity => 1,
            NumericOption::RangeStart => 5,
            NumericOption::RangeLimit => 2000,
            NumericOption::PipelineFactor => 1,
            NumericOption::ReadInterval => 1,
            NumericOption::WindowLower => 1,
            NumericOption::WindowUpper => 512,
            NumericOption::ReadLen => 5,
        }
    }

    /// The one test mode that takes this option, or `None` for an option
    /// that every mode takes.
    pub open spec fn owner(self) -> Option<TestMode> {
        match self {
            NumericOption::RangeStart | NumericOption::RangeLimit => Some(TestMode::RangeAttack),
            NumericOption::PipelineFactor
            | NumericOption::ReadInterval
            | NumericOption::WindowLower
            | NumericOption::WindowUpper
            | NumericOption::ReadLen => Some(TestMode::SlowRead),
            _ => None,
        }
    }

    /// Whether the option is emitted at all when `mode` is selected.
    pub open spec fn applies_in(self, mode: TestMode) -> bool {
        self.owner() matches Some(owner) ==> owner == mode
    }
}

/// The free-text options.
pub enum TextOption {
    Verb,
    ContentType,
    Accept,
    Cookie,
    CustomHeader,
}

impl TextOption {
    pub open spec fn flag(self) -> Seq<char> {
        match self {
            TextOption::Verb => "-t"@,
            TextOption::ContentType => "-f"@,
            TextOption::Accept => "-m"@,
            TextOption::Cookie => "-j"@,
            TextOption::CustomHeader => "-1"@,
        }
    }
}

/// The number that a numeric field asks for: what its trimmed text reads
/// as, where that is an integer other than `default`. `None` where the text
/// reads as `default` or does not read as an integer.
pub open spec fn numeric_value(text: Seq<char>, default: int) -> Option<i64> {
    match parse_i64_spec(trimmed(text)) {
        Some(n) => if n != default {
            Some(n)
        } else {
            None
        },
        None => None,
    }
}

/// What a numeric field contributes: the flag and the canonical text of the
/// number that the field asks for, or nothing where it asks for none.
#[verifier::opaque]
pub open spec fn numeric_option(flag: Seq<char>, text: Seq<char>, default: int) -> Seq<CliOption> {
    match numeric_value(text, default) {
        Some(n) => seq![CliOption::valued(flag, decimal(n as int))],
        None => Seq::empty(),
    }
}

/// What a free-text field contributes: the flag and the trimmed text, where
/// that is not empty.
#[verifier::opaque]
pub open spec fn text_option(flag: Seq<char>, text: Seq<char>) -> Seq<CliOption> {
    if trimmed(text).len() > 0 {
        seq![CliOption::valued(flag, trimmed(text))]
    } else {
        Seq::empty()
    }
}

/// The tokens of two lists of options, one after the other, are the tokens
/// of the first followed by those of the second.
pub broadcast proof fn lemma_tokens_concat(a: Seq<CliOption>, b: Seq<CliOption>)
    ensures
        #[trigger] tokens(a + b) == tokens(a) + tokens(b),
    decreases b.len(),
{
    if b.len() == 0 {
        assert(a + b =~= a);
        assert(tokens(a) + tokens(b) =~= tokens(a));
    } else {
        lemma_tokens_concat(a, b.drop_last());
        assert((a + b).drop_last() =~= a + b.drop_last());
        assert((a + b).last() == b.last());
        assert(tokens(a + b) =~= tokens(a) + tokens(b));
    }
}

/// The tokens of a single option.
pub broadcast proof fn lemma_tokens_single(option: CliOption)
    ensures
        #[trigger] tokens(seq![option]) == option.tokens(),
{
    let one = seq![option];
    assert(one.drop_last() =~= Seq::<CliOption>::empty());
    assert(tokens(one.drop_last()) =~= Seq::<Seq<char>>::empty());
    assert(tokens(one) =~= option.tokens());
}

/// A flag is among two lists of options, one after the other, where it is
/// among the first or among the second.
pub broadcast proof fn lemma_has_flag_concat(a: Seq<CliOption>, b: Seq<CliOption>, flag: Seq<char>)
    ensures
        #[trigger] has_flag(a + b, flag) <==> has_flag(a, flag) || has_flag(b, flag),
{
    if has_flag(a, flag) {
        let i = choose|i: int| 0 <= i < a.len() && (#[trigger] a[i]).flag == flag;
        assert((a + b)[i] == a[i]);
    }
    if has_flag(b, flag) {
        let i = choose|i: int| 0 <= i < b.len() && (#[trigger] b[i]).flag == flag;
        assert((a + b)[a.len() + i] == b[i]);
    }
    if has_flag(a + b, flag) {
        let i = choose|i: int| 0 <= i < (a + b).len() && (#[trigger] (a + b)[i]).flag == flag;
        if i < a.len() {
            assert(a[i] == (a + b)[i]);
        } else {
            assert(b[i - a.len()] == (a + b)[i]);
        }
    }
}

/// A value is among two lists of options, one after the other, where it is
/// among the first or among the second.
pub broadcast proof fn lemma_has_value_concat(
    a: Seq<CliOption>,
    b: Seq<CliOption>,
    value: Seq<char>,
)
    ensures
        #[trigger] has_value(a + b, value) <==> has_value(a, value) || has_value(b, value),
{
    if has_value(a, value) {
        let i = choose|i: int| 0 <= i < a.len() && (#[trigger] a[i]).value == Some(value);
        assert((a + b)[i] == a[i]);
    }
    if has_value(b, value) {
        let i = choose|i: int| 0 <= i < b.len() && (#[trigger] b[i]).value == Some(value);
        assert((a + b)[a.len() + i] == b[i]);
    }
    if has_value(a + b, value) {
        let i = choose|i: int|
            0 <= i < (a + b).len() && (#[trigger] (a + b)[i]).value == Some(value);
        if i < a.len() {
            assert(a[i] == (a + b)[i]);
        } else {
            assert(b[i - a.len()] == (a + b)[i]);
        }
    }
}

/// An option is among two lists of options, one after the other, where it
/// is among the first or among the second.
pub broadcast proof fn lemma_contains_concat(a: Seq<CliOption>, b: Seq<CliOption>, option: CliOption)
    ensures
        #[trigger] (a + b).contains(option) <==> a.contains(option) || b.contains(option),
{
    if a.contains(option) {
        let i = choose|i: int| 0 <= i < a.len() && a[i] == option;
        assert((a + b)[i] == option);
    }
    if b.contains(option) {
        let i = choose|i: int| 0 <= i < b.len() && b[i] == option;
        assert((a + b)[a.len() + i] == option);
    }
    if (a + b).contains(option) {
        let i = choose|i: int| 0 <= i < (a + b).len() && (a + b)[i] == option;
        if i < a.len() {
            assert(a[i] == option);
        } else {
            assert(b[i - a.len()] == option);
        }
    }
}

/// The flags, values and members of a list of one option, and of none.
pub broadcast proof fn lemma_single_option(option: CliOption, flag: Seq<char>)
    ensures
        #[trigger] has_flag(seq![option], flag) <==> option.flag == flag,
        !has_flag(Seq::<CliOption>::empty(), flag),
{
    assert(seq![option][0] == option);
}

/// The values of a list of one option, and of none.
pub broadcast proof fn lemma_single_option_value(option: CliOption, value: Seq<char>)
    ensures
        #[trigger] has_value(seq![option], value) <==> option.value == Some(value),
        !has_value(Seq::<CliOption>::empty(), value),
{
    assert(seq![option][0] == option);
}

/// A token stands in the command line exactly where it is the flag or the
/// value of one of the options.
pub proof fn lemma_tokens_contains(options: Seq<CliOption>, token: Seq<char>)
    ensures
        tokens(options).contains(token) <==> has_flag(options, token) || has_value(options, token),
    decreases options.len(),
{
    if options.len() == 0 {
        assert(tokens(options) =~= Seq::<Seq<char>>::empty());
    } else {
        let init = options.drop_last();
        let last = options.last();
        lemma_tokens_contains(init, token);
        assert(options =~= init + seq![last]);
        lemma_has_flag_concat(init, seq![last], token);
        lemma_has_value_concat(init, seq![last], token);
        lemma_single_option(last, token);
        lemma_single_option_value(last, token);
        let front = tokens(init);
        let back = last.tokens();
        if front.contains(token) {
            let i = choose|i: int| 0 <= i < front.len() && front[i] == token;
            assert((front + back)[i] == token);
        }
        if back.contains(token) {
            let i = choose|i: int| 0 <= i < back.len() && back[i] == token;
            assert((front + back)[front.len() + i] == token);
        }
        if (front + back).contains(token) {
            let i = choose|i: int| 0 <= i < (front + back).len() && (front + back)[i] == token;
            if i < front.len() {
                assert(front[i] == token);
            } else {
                assert(back[i - front.len()] == token);
            }
        }
        if last.flag == token {
            assert(back[0] == token);
        }
        if last.value == Some(token) {
            assert(back[1] == token);
        }
    }
}

/// The flag of an option with a value stands in the command line with that
/// value right behind it.
pub proof fn lemma_tokens_pair(options: Seq<CliOption>, flag: Seq<char>, value: Seq<char>)
    requires
        options.contains(CliOption::valued(flag, value)),
    ensures
        has_pair(tokens(options), flag, value),
    decreases options.len(),
{
    let init = options.drop_last();
    let last = options.last();
    let front = tokens(init);
    let back = last.tokens();
    if last == CliOption::valued(flag, value) {
        let at = front.len() as int;
        assert((front + back)[at] == back[0]);
        assert((front + back)[at + 1] == back[1]);
    } else {
        let k = choose|k: int| 0 <= k < options.len() && options[k] == CliOption::valued(flag, value);
        assert(init[k] == options[k]);
        lemma_tokens_pair(init, flag, value);
        let i = choose|i: int|
            0 <= i && i + 1 < front.len() && #[trigger] front[i] == flag && front[i + 1] == value;
        assert((front + back)[i] == front[i]);
        assert((front + back)[i + 1] == front[i + 1]);
    }
}

/// A numeric field contributes one option, under its own flag, where it
/// asks for a number, and none where it does not.
pub proof fn lemma_numeric_option(flag: Seq<char>, text: Seq<char>, default: int)
    ensures
        numeric_option(flag, text, default) == match numeric_value(text, default) {
            Some(n) => seq![CliOption::valued(flag, decimal(n as int))],
            None => Seq::empty(),
        },
        forall|f: Seq<char>| #[trigger]
            has_flag(numeric_option(flag, text, default), f) <==> f == flag && numeric_value(
                text,
                default,
            ) is Some,
{
    reveal(numeric_option);
    assert forall|f: Seq<char>| #[trigger]
        has_flag(numeric_option(flag, text, default), f) <==> f == flag && numeric_value(
            text,
            default,
        ) is Some by {
        match numeric_value(text, default) {
            Some(n) => {
                lemma_single_option(CliOption::valued(flag, decimal(n as int)), f);
            },
            None => {},
        }
    }
}

/// A free-text field contributes one option, under its own flag, where its
/// trimmed text is not empty, and none where it is.
pub proof fn lemma_text_option(flag: Seq<char>, text: Seq<char>)
    ensures
        text_option(flag, text) == if trimmed(text).len() > 0 {
            seq![CliOption::valued(flag, trimmed(text))]
        } else {
            Seq::empty()
        },
        forall|f: Seq<char>| #[trigger]
            has_flag(text_option(flag, text), f) <==> f == flag && trimmed(text).len() > 0,
{
    reveal(text_option);
    assert forall|f: Seq<char>| #[trigger]
        has_flag(text_option(flag, text), f) <==> f == flag && trimmed(text).len() > 0 by {
        if trimmed(text).len() > 0 {
            lemma_single_option(CliOption::valued(flag, trimmed(text)), f);
        }
    }
}

/// The only value that a numeric field contributes is the canonical text
/// of the number that it asks for.
pub proof fn lemma_numeric_option_value(
    flag: Seq<char>,
    text: Seq<char>,
    default: int,
    value: Seq<char>,
)
    ensures
        has_value(numeric_option(flag, text, default), value) <==> (numeric_value(
            text,
            default,
        ) matches Some(n) && value == decimal(n as int)),
{
    reveal(numeric_option);
    match numeric_value(text, default) {
        Some(n) => {
            lemma_single_option_value(CliOption::valued(flag, decimal(n as int)), value);
        },
        None => {},
    }
}

/// The only value that a free-text field contributes is its trimmed text,
/// where that is not empty.
pub proof fn lemma_text_option_value(flag: Seq<char>, text: Seq<char>, value: Seq<char>)
    ensures
        has_value(text_option(flag, text), value) <==> trimmed(text).len() > 0 && value == trimmed(
            text,
        ),
{
    reveal(text_option);
    if trimmed(text).len() > 0 {
        lemma_single_option_value(CliOption::valued(flag, trimmed(text)), value);
    }
}

/// The number that a numeric option was written with reads back as itself:
/// a field that holds the emitted text asks for the same number.
pub proof fn lemma_numeric_value_of_decimal(n: i64, default: int)
    ensures
        numeric_value(decimal(n as int), default) == if n != default {
            Some(n)
        } else {
            None
        },
{
    lemma_decimal_is_trimmed(n as int);
    lemma_parse_of_decimal(n);
}

/// Appends to `args` what a numeric field contributes.
pub fn push_opt_num(args: &mut Vec<String>, flag: &str, val: &str, default: i64)
    ensures
        final(args).deep_view() == old(args).deep_view() + tokens(
            numeric_option(flag@, val@, default as int),
        ),
{
    broadcast use lemma_tokens_single;
    reveal(numeric_option);

    if let Some(n) = parse_i64(trim(val)) {
        if n != default {
            args.push(flag.to_owned());
            args.push(format_i64(n));
            assert(args.deep_view() =~= old(args).deep_view() + seq![flag@, decimal(n as int)]);
            return ;
        }
    }
    assert(args.deep_view() =~= old(args).deep_view() + Seq::<Seq<char>>::empty());
}

/// Appends to `args` what a free-text field contributes.
pub fn push_opt_text(args: &mut Vec<String>, flag: &str, val: &str)
    ensures
        final(args).deep_view() == old(args).deep_view() + tokens(text_option(flag@, val@)),
{
    broadcast use lemma_tokens_single;
    reveal(text_option);

    let value = trim(val);
    if !value.is_empty() {
        args.push(flag.to_owned());
        args.push(value.to_owned());
        assert(args.deep_view() =~= old(args).deep_view() + seq![flag@, trimmed(val@)]);
    } else {
        assert(args.deep_view() =~= old(args).deep_view() + Seq::<Seq<char>>::empty());
    }
}

} // verus!

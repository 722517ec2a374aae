//! Reading and writing configuration values by dotted key, and the parsing of
//! the values written.
use vstd::prelude::*;
use crate::cli::config::{CliConfig, CliView};
use crate::text::{dec_char_value, dec_digits, dec_string, is_dec_char, split_on, split_str, str_eq, string_views};

verus! {

/// The settable and readable configuration keys.
#[derive(Debug, Clone, Copy, PartialEq, Eq, Structural)]
pub enum ConfigKey {
    WorkloadName,
    WorkloadVersion,
    WorkloadDescription,
    BuildTarget,
    BuildProfile,
    BuildOptimize,
    DeployCanary,
    DeployCanaryPercentage,
    DeployVersionsToKeep,
}

/// The key that a dotted name stands for: exactly two parts, a section and a field.
pub open spec fn key_named(key: Seq<char>) -> Option<ConfigKey> {
    let parts = split_on(key, '.');
    if parts == seq!["workload"@, "name"@] {
        Some(ConfigKey::WorkloadName)
    } else if parts == seq!["workload"@, "version"@] {
        Some(ConfigKey::WorkloadVersion)
    } else if parts == seq!["workload"@, "description"@] {
        Some(ConfigKey::WorkloadDescription)
    } else if parts == seq!["build"@, "target"@] {
        Some(ConfigKey::BuildTarget)
    } else if parts == seq!["build"@, "profile"@] {
        Some(ConfigKey::BuildProfile)
    } else if parts == seq!["build"@, "optimize"@] {
        Some(ConfigKey::BuildOptimize)
    } else if parts == seq!["deploy"@, "canary"@] {
        Some(ConfigKey::DeployCanary)
    } else if parts == seq!["deploy"@, "canary_percentage"@] {
        Some(ConfigKey::DeployCanaryPercentage)
    } else if parts == seq!["deploy"@, "versions_to_keep"@] {
        Some(ConfigKey::DeployVersionsToKeep)
    } else {
        None
    }
}

/// Why an unsigned integer failed to parse (std's `IntErrorKind`).
#[derive(Debug, Clone, Copy, PartialEq, Eq, Structural)]
pub enum IntErrorKind {
    /// The text is empty.
    Empty,
    /// The text holds a character that is not a digit.
    InvalidDigit,
    /// The number is too large for the type.
    PosOverflow,
}

/// Errors of reading or writing a configuration value.
#[derive(Debug, Clone)]
pub enum CliError {
    /// Reading a key that does not exist.
    UnknownKey(String),
    /// Writing a key that does not exist or cannot be written.
    UnknownOrReadOnlyKey(String),
    /// A boolean value other than `true` or `false`.
    InvalidBool,
    /// An integer value that does not parse.
    InvalidInteger(IntErrorKind),
}

/// The message of a configuration value error.
pub open spec fn cli_error_message(e: CliError) -> Seq<char> {
    match e {
        CliError::UnknownKey(k) => "Unknown config key: "@ + k@,
        CliError::UnknownOrReadOnlyKey(k) => "Unknown or read-only config key: "@ + k@,
        CliError::InvalidBool => "provided string was not `true` or `false`"@,
        CliError::InvalidInteger(IntErrorKind::Empty) => "cannot parse integer from empty string"@,
        CliError::InvalidInteger(IntErrorKind::InvalidDigit) => "invalid digit found in string"@,
        CliError::InvalidInteger(IntErrorKind::PosOverflow) => "number too large to fit in target type"@,
    }
}

impl CliError {
    /// The error message.
    pub fn message(&self) -> (r: String)
        ensures
            r@ == cli_error_message(*self),
    {
        match self {
            CliError::UnknownKey(k) => {
                let mut s = "Unknown config key: ".to_string();
                s.append(k.as_str());
                s
            },
            CliError::UnknownOrReadOnlyKey(k) => {
                let mut s = "Unknown or read-only config key: ".to_string();
                s.append(k.as_str());
                s
            },
            CliError::InvalidBool => "provided string was not `true` or `false`".to_string(),
            CliError::InvalidInteger(IntErrorKind::Empty) => "cannot parse integer from empty string".to_string(),
            CliError::InvalidInteger(IntErrorKind::InvalidDigit) => "invalid digit found in string".to_string(),
            CliError::InvalidInteger(IntErrorKind::PosOverflow) => "number too large to fit in target type".to_string(),
        }
    }
}

/// Reading digits left to right: the first character that is not a digit, or
/// the first digit that makes the value exceed `max`, stops with an error.
pub open spec fn scan_digits(d: Seq<char>, max: nat) -> Result<nat, IntErrorKind>
    decreases d.len(),
{
    if d.len() == 0 {
        Ok(0)
    } else {
        match scan_digits(d.drop_last(), max) {
            Err(e) => Err(e),
            Ok(v) => if !is_dec_char(d.last()) {
                Err(IntErrorKind::InvalidDigit)
            } else if v * 10 + dec_char_value(d.last()) > max {
                Err(IntErrorKind::PosOverflow)
            } else {
                Ok(v * 10 + dec_char_value(d.last()))
            },
        }
    }
}

/// What std's `FromStr` gives for an unsigned integer type with largest value
/// `max`: empty text and a lone sign are rejected, a leading `+` is skipped,
/// then the digits are read left to right.
pub open spec fn parse_uint(s: Seq<char>, max: nat) -> Result<nat, IntErrorKind> {
    if s.len() == 0 {
        Err(IntErrorKind::Empty)
    } else if s.len() == 1 && (s[0] == '+' || s[0] == '-') {
        Err(IntErrorKind::InvalidDigit)
    } else if s[0] == '+' {
        scan_digits(s.drop_first(), max)
    } else {
        scan_digits(s, max)
    }
}

/// Parse an unsigned integer no larger than `max`.
pub fn parse_uint_text(s: &str, max: u64) -> (r: Result<u64, IntErrorKind>)
    ensures
        match parse_uint(s@, max as nat) {
            Ok(v) => r == Ok::<u64, IntErrorKind>(v as u64),
            Err(e) => r == Err::<u64, IntErrorKind>(e),
        },
{
    let chars = crate::text::chars_of(s);
    let n = chars.len();
    if n == 0 {
        return Err(IntErrorKind::Empty);
    }
    if n == 1 && (chars[0] == '+' || chars[0] == '-') {
        return Err(IntErrorKind::InvalidDigit);
    }
    let start: usize = if chars[0] == '+' { 1 } else { 0 };
    let ghost d = if chars@[0] == '+' { s@.drop_first() } else { s@ };
    assert(d =~= chars@.subrange(start as int, n as int));
    assert(parse_uint(s@, max as nat) == scan_digits(d, max as nat));
    let mut v: u64 = 0;
    let mut i: usize = start;
    assert(d.take(0) =~= Seq::<char>::empty());
    while i < n
        invariant
            start <= i <= n == chars@.len(),
            d == chars@.subrange(start as int, n as int),
            parse_uint(s@, max as nat) == scan_digits(d, max as nat),
            v <= max,
            scan_digits(d.take(i - start), max as nat) == Ok::<nat, IntErrorKind>(v as nat),
        decreases n - i,
    {
        let c = chars[i];
        let ghost k = i - start;
        assert(d.take(k + 1).drop_last() =~= d.take(k));
        assert(d.take(k + 1).last() == c);
        if !('0' <= c && c <= '9') {
            assert(scan_digits(d.take(k + 1), max as nat) == Err::<nat, IntErrorKind>(
                IntErrorKind::InvalidDigit,
            ));
            proof {
                lemma_scan_error_stays(d, k + 1, max as nat);
            }
            return Err(IntErrorKind::InvalidDigit);
        }
        let digit: u64 = (c as u32 - '0' as u32) as u64;
        assert(digit == dec_char_value(c));
        if (v as u128) * 10 + (digit as u128) > max as u128 {
            assert(scan_digits(d.take(k + 1), max as nat) == Err::<nat, IntErrorKind>(
                IntErrorKind::PosOverflow,
            ));
            proof {
                lemma_scan_error_stays(d, k + 1, max as nat);
            }
            return Err(IntErrorKind::PosOverflow);
        }
        v = v * 10 + digit;
        i = i + 1;
    }
    assert(d.take(n - start) =~= d);
    Ok(v)
}

/// Once reading stops with an error, reading further gives the same error.
proof fn lemma_scan_error_stays(d: Seq<char>, k: int, max: nat)
    requires
        0 <= k <= d.len(),
        scan_digits(d.take(k), max) is Err,
    ensures
        scan_digits(d, max) == scan_digits(d.take(k), max),
    decreases d.len() - k,
{
    if k < d.len() {
        assert(d.take(k + 1).drop_last() =~= d.take(k));
        lemma_scan_error_stays(d, k + 1, max);
    } else {
        assert(d.take(k) =~= d);
    }
}

/// What std's `FromStr` gives for `bool`.
pub open spec fn parse_bool_text(s: Seq<char>) -> Option<bool> {
    if s == "true"@ {
        Some(true)
    } else if s == "false"@ {
        Some(false)
    } else {
        None
    }
}

/// Whether the parts of a key are exactly these two.
fn key_is(parts: &Vec<String>, a: &str, b: &str) -> (r: bool)
    ensures
        r == (string_views(parts@) == seq![a@, b@]),
{
    if parts.len() == 2 && str_eq(parts[0].as_str(), a) && str_eq(parts[1].as_str(), b) {
        assert(string_views(parts@) =~= seq![a@, b@]);
        true
    } else {
        proof {
            assert(string_views(parts@).len() == parts@.len());
            if parts@.len() == 2 {
                assert(string_views(parts@)[0] == parts@[0]@);
                assert(string_views(parts@)[1] == parts@[1]@);
            }
            if string_views(parts@) == seq![a@, b@] {
                assert(string_views(parts@)[0] == a@);
                assert(string_views(parts@)[1] == b@);
            }
        }
        false
    }
}

/// The key a dotted name stands for.
pub fn parse_key(key: &str) -> (r: Option<ConfigKey>)
    ensures
        r == key_named(key@),
{
    let parts = split_str(key, '.');
    if key_is(&parts, "workload", "name") {
        Some(ConfigKey::WorkloadName)
    } else if key_is(&parts, "workload", "version") {
        Some(ConfigKey::WorkloadVersion)
    } else if key_is(&parts, "workload", "description") {
        Some(ConfigKey::WorkloadDescription)
    } else if key_is(&parts, "build", "target") {
        Some(ConfigKey::BuildTarget)
    } else if key_is(&parts, "build", "profile") {
        Some(ConfigKey::BuildProfile)
    } else if key_is(&parts, "build", "optimize") {
        Some(ConfigKey::BuildOptimize)
    } else if key_is(&parts, "deploy", "canary") {
        Some(ConfigKey::DeployCanary)
    } else if key_is(&parts, "deploy", "canary_percentage") {
        Some(ConfigKey::DeployCanaryPercentage)
    } else if key_is(&parts, "deploy", "versions_to_keep") {
        Some(ConfigKey::DeployVersionsToKeep)
    } else {
        None
    }
}

/// `true` or `false`.
pub open spec fn bool_text(b: bool) -> Seq<char> {
    if b {
        "true"@
    } else {
        "false"@
    }
}

/// A text in double quotes.
pub open spec fn quoted(s: Seq<char>) -> Seq<char> {
    "\""@ + s + "\""@
}

/// How a configuration value is shown: texts quoted (an absent description as
/// `null`), booleans and numbers plainly.
pub open spec fn key_value_text(c: CliView, k: ConfigKey) -> Seq<char> {
    match k {
        ConfigKey::WorkloadName => quoted(c.workload.name),
        ConfigKey::WorkloadVersion => quoted(c.workload.version),
        ConfigKey::WorkloadDescription => match c.workload.description {
            Some(d) => quoted(d),
            None => "null"@,
        },
        ConfigKey::BuildTarget => quoted(c.build.target),
        ConfigKey::BuildProfile => quoted(c.build.profile),
        ConfigKey::BuildOptimize => bool_text(c.build.optimize),
        ConfigKey::DeployCanary => bool_text(c.deploy.canary),
        ConfigKey::DeployCanaryPercentage => dec_digits(c.deploy.canary_percentage as nat),
        ConfigKey::DeployVersionsToKeep => dec_digits(c.deploy.versions_to_keep as nat),
    }
}

/// The text of a boolean.
pub(crate) fn bool_string(b: bool) -> (r: String)
    ensures
        r@ == bool_text(b),
{
    if b {
        "true".to_string()
    } else {
        "false".to_string()
    }
}

/// A text in double quotes.
fn quote(s: &str) -> (r: String)
    ensures
        r@ == quoted(s@),
{
    let mut q = "\"".to_string();
    q.append(s);
    q.append("\"");
    q
}

/// The value of a configuration key as shown by `edge config get`.
pub fn get_config_value(config: &CliConfig, key: &str) -> (r: Result<String, CliError>)
    ensures
        match key_named(key@) {
            Some(k) => r matches Ok(v) && v@ == key_value_text(config@, k),
            None => r matches Err(CliError::UnknownKey(k)) && k@ == key@,
        },
{
    match parse_key(key) {
        Some(ConfigKey::WorkloadName) => Ok(quote(config.workload.name.as_str())),
        Some(ConfigKey::WorkloadVersion) => Ok(quote(config.workload.version.as_str())),
        Some(ConfigKey::WorkloadDescription) => match &config.workload.description {
            Some(d) => Ok(quote(d.as_str())),
            None => Ok("null".to_string()),
        },
        Some(ConfigKey::BuildTarget) => Ok(quote(config.build.target.as_str())),
        Some(ConfigKey::BuildProfile) => Ok(quote(config.build.profile.as_str())),
        Some(ConfigKey::BuildOptimize) => Ok(bool_string(config.build.optimize)),
        Some(ConfigKey::DeployCanary) => Ok(bool_string(config.deploy.canary)),
        Some(ConfigKey::DeployCanaryPercentage) => Ok(dec_string(config.deploy.canary_percentage as u64)),
        Some(ConfigKey::DeployVersionsToKeep) => Ok(dec_string(config.deploy.versions_to_keep as u64)),
        None => Err(CliError::UnknownKey(key.to_string())),
    }
}

/// The configuration after writing a value to a key, or the error that leaves
/// it unchanged: unknown keys, booleans other than `true`/`false`, and numbers
/// that do not parse or do not fit are refused.
pub open spec fn set_key_result(c: CliView, key: Seq<char>, value: Seq<char>) -> Result<CliView, CliError> {
    match key_named(key) {
        None => Err(arbitrary()),
        Some(k) => match k {
            ConfigKey::WorkloadName => Ok(CliView { workload: crate::cli::config::WorkloadView { name: value, ..c.workload }, ..c }),
            ConfigKey::WorkloadVersion => Ok(CliView { workload: crate::cli::config::WorkloadView { version: value, ..c.workload }, ..c }),
            ConfigKey::WorkloadDescription => Ok(CliView { workload: crate::cli::config::WorkloadView { description: Some(value), ..c.workload }, ..c }),
            ConfigKey::BuildTarget => Ok(CliView { build: crate::cli::config::BuildView { target: value, ..c.build }, ..c }),
            ConfigKey::BuildProfile => Ok(CliView { build: crate::cli::config::BuildView { profile: value, ..c.build }, ..c }),
            ConfigKey::BuildOptimize => match parse_bool_text(value) {
                Some(b) => Ok(CliView { build: crate::cli::config::BuildView { optimize: b, ..c.build }, ..c }),
                None => Err(CliError::InvalidBool),
            },
            ConfigKey::DeployCanary => match parse_bool_text(value) {
                Some(b) => Ok(CliView { deploy: crate::cli::config::DeployView { canary: b, ..c.deploy }, ..c }),
                None => Err(CliError::InvalidBool),
            },
            ConfigKey::DeployCanaryPercentage => match parse_uint(value, 255) {
                Ok(n) => Ok(CliView { deploy: crate::cli::config::DeployView { canary_percentage: n as u8, ..c.deploy }, ..c }),
                Err(e) => Err(CliError::InvalidInteger(e)),
            },
            ConfigKey::DeployVersionsToKeep => match parse_uint(value, usize::MAX as nat) {
                Ok(n) => Ok(CliView { deploy: crate::cli::config::DeployView { versions_to_keep: n as usize, ..c.deploy }, ..c }),
                Err(e) => Err(CliError::InvalidInteger(e)),
            },
        },
    }
}

/// Parse `true` or `false`.
fn parse_bool_value(s: &str) -> (r: Option<bool>)
    ensures
        r == parse_bool_text(s@),
{
    if str_eq(s, "true") {
        Some(true)
    } else if str_eq(s, "false") {
        Some(false)
    } else {
        None
    }
}

/// Write a configuration value by key, as `edge config set` does.
pub fn set_config_value(config: &mut CliConfig, key: &str, value: &str) -> (r: Result<(), CliError>)
    ensures
        key_named(key@) is None ==> (r matches Err(CliError::UnknownOrReadOnlyKey(k)) && k@ == key@
            && final(config)@ == old(config)@),
        key_named(key@) is Some ==> match set_key_result(old(config)@, key@, value@) {
            Ok(c) => r is Ok && final(config)@ == c,
            Err(e) => r == Err::<(), CliError>(e) && final(config)@ == old(config)@,
        },
{
    match parse_key(key) {
        None => Err(CliError::UnknownOrReadOnlyKey(key.to_string())),
        Some(ConfigKey::WorkloadName) => {
            config.workload.name = value.to_string();
            Ok(())
        },
        Some(ConfigKey::WorkloadVersion) => {
            config.workload.version = value.to_string();
            Ok(())
        },
        Some(ConfigKey::WorkloadDescription) => {
            config.workload.description = Some(value.to_string());
            Ok(())
        },
        Some(ConfigKey::BuildTarget) => {
            config.build.target = value.to_string();
            Ok(())
        },
        Some(ConfigKey::BuildProfile) => {
            config.build.profile = value.to_string();
            Ok(())
        },
        Some(ConfigKey::BuildOptimize) => match parse_bool_value(value) {
            Some(b) => {
                config.build.optimize = b;
                Ok(())
            },
            None => Err(CliError::InvalidBool),
        },
        Some(ConfigKey::DeployCanary) => match parse_bool_value(value) {
            Some(b) => {
                config.deploy.canary = b;
                Ok(())
            },
            None => Err(CliError::InvalidBool),
        },
        Some(ConfigKey::DeployCanaryPercentage) => match parse_uint_text(value, 255) {
            Ok(n) => {
                config.deploy.canary_percentage = n as u8;
                Ok(())
            },
            Err(e) => Err(CliError::InvalidInteger(e)),
        },
        Some(ConfigKey::DeployVersionsToKeep) => match parse_uint_text(value, usize::MAX as u64) {
            Ok(n) => {
                config.deploy.versions_to_keep = n as usize;
                Ok(())
            },
            Err(e) => Err(CliError::InvalidInteger(e)),
        },
    }
}


/// Reading a key after writing it gives back what was written: a text in
/// quotes, a boolean as written, a number as the value it parsed to.
pub proof fn law_get_after_set(c: CliView, key: Seq<char>, value: Seq<char>)
    requires
        key_named(key) is Some,
        set_key_result(c, key, value) is Ok,
    ensures
        ({
            let k = key_named(key)->Some_0;
            let c2 = set_key_result(c, key, value)->Ok_0;
            key_value_text(c2, k) == match k {
                ConfigKey::BuildOptimize | ConfigKey::DeployCanary => value,
                ConfigKey::DeployCanaryPercentage => dec_digits(parse_uint(value, 255)->Ok_0),
                ConfigKey::DeployVersionsToKeep => dec_digits(parse_uint(value, usize::MAX as nat)->Ok_0),
                _ => quoted(value),
            }
        }),
{
    let k = key_named(key)->Some_0;
    match k {
        ConfigKey::DeployCanaryPercentage => {
            lemma_scan_bounded(value, 255);
        },
        ConfigKey::DeployVersionsToKeep => {
            lemma_scan_bounded(value, usize::MAX as nat);
        },
        _ => {},
    }
}

/// A parsed value is at most the largest value of the type.
proof fn lemma_scan_bounded(s: Seq<char>, max: nat)
    ensures
        parse_uint(s, max) matches Ok(v) ==> v <= max,
{
    if s.len() > 0 && !(s.len() == 1 && (s[0] == '+' || s[0] == '-')) {
        if s[0] == '+' {
            lemma_scan_digits_bounded(s.drop_first(), max);
        } else {
            lemma_scan_digits_bounded(s, max);
        }
    }
}

proof fn lemma_scan_digits_bounded(d: Seq<char>, max: nat)
    ensures
        scan_digits(d, max) matches Ok(v) ==> v <= max,
    decreases d.len(),
{
    if d.len() > 0 {
        lemma_scan_digits_bounded(d.drop_last(), max);
    }
}

} // verus!

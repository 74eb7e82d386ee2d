//! The Anubis bot-mitigation component: its environment and its bot
//! policy document.

use vstd::prelude::*;
use crate::config::{AnubisConfig, Config};
use crate::error::CerberusError;
use crate::text::{decimal, decimal_string, join2};
use crate::topology::str_views;
use crate::compose::hex_char;

verus! {

/// One character inside a JSON string literal, as serde_json escapes it:
/// quote and backslash, the short escapes for backspace, form feed, line
/// feed, carriage return and tab, other control characters as `\u00xx` in
/// lowercase hexadecimal, and every other character unchanged.
pub open spec fn json_escape_char(c: char) -> Seq<char> {
    let u = c as u32;
    if c == '"' {
        seq!['\\', '"']
    } else if c == '\\' {
        seq!['\\', '\\']
    } else if u == 0x08 {
        seq!['\\', 'b']
    } else if u == 0x0c {
        seq!['\\', 'f']
    } else if c == '\n' {
        seq!['\\', 'n']
    } else if c == '\r' {
        seq!['\\', 'r']
    } else if c == '\t' {
        seq!['\\', 't']
    } else if u < 0x20 {
        seq!['\\', 'u', '0', '0', hex_char((u / 16) as nat), hex_char((u % 16) as nat)]
    } else {
        seq![c]
    }
}

/// The characters of `s`, each escaped for a JSON string.
pub open spec fn json_escaped(s: Seq<char>) -> Seq<char>
    decreases s.len(),
{
    if s.len() == 0 {
        Seq::empty()
    } else {
        json_escaped(s.drop_last()) + json_escape_char(s.last())
    }
}

/// The JSON string literal of `s`: quotes and escapes included.
pub open spec fn json_string_literal(s: Seq<char>) -> Seq<char> {
    seq!['"'] + json_escaped(s) + seq!['"']
}

/// Relies on serde_json::to_string applied to a `str`: it writes the string
/// between quotes, escaped by serde_json's `ESCAPE` table and
/// `write_char_escape`; serializing a `str` does not fail.
#[verifier::external_body]
fn json_quote(s: &str) -> (r: String)
    ensures
        r@ == json_string_literal(s@),
{
    match serde_json::to_string(s) {
        Ok(t) => t,
        Err(_) => String::new(),
    }
}

/// The fixed rules of the bot policy and the opening of its settings, up
/// to the difficulty.
pub const POLICY_RULES: &'static str = "{\n  \"ALLOW\": [\n    {\n      \"description\": \"Allow favicon requests\",\n      \"path\": \"/favicon.ico\"\n    },\n    {\n      \"description\": \"Allow well-known paths for certificates, etc.\",\n      \"path\": \"/.well-known/*\"\n    },\n    {\n      \"description\": \"Allow robots.txt\",\n      \"path\": \"/robots.txt\"\n    },\n    {\n      \"description\": \"Allow Google crawlers\",\n      \"user-agent\": \"*Googlebot*\"\n    },\n    {\n      \"description\": \"Allow Bing crawlers\",\n      \"user-agent\": \"*bingbot*\"\n    },\n    {\n      \"description\": \"Allow Facebook link previews\",\n      \"user-agent\": \"*facebookexternalhit*\"\n    },\n    {\n      \"description\": \"Allow Twitter link previews\",\n      \"user-agent\": \"*Twitterbot*\"\n    },\n    {\n      \"description\": \"Allow LinkedIn link previews\",\n      \"user-agent\": \"*LinkedInBot*\"\n    },\n    {\n      \"description\": \"Allow Slack link previews\",\n      \"user-agent\": \"*Slackbot*\"\n    }\n  ],\n  \"BLOCK\": [\n    {\n      \"description\": \"Block generic bots\",\n      \"user-agent\": \"*bot*\"\n    },\n    {\n      \"description\": \"Block generic crawlers\",\n      \"user-agent\": \"*crawler*\"\n    },\n    {\n      \"description\": \"Block scrapers\",\n      \"user-agent\": \"*scraper*\"\n    },\n    {\n      \"description\": \"Block wget\",\n      \"user-agent\": \"*wget*\"\n    },\n    {\n      \"description\": \"Block curl\",\n      \"user-agent\": \"*curl*\"\n    },\n    {\n      \"description\": \"Block Python requests\",\n      \"user-agent\": \"*python*\"\n    },\n    {\n      \"description\": \"Block admin paths\",\n      \"path\": \"/admin*\"\n    },\n    {\n      \"description\": \"Block environment files\",\n      \"path\": \"/.env*\"\n    },\n    {\n      \"description\": \"Block WordPress paths\",\n      \"path\": \"/wp-*\"\n    }\n  ],\n  \"CHALLENGE\": [\n    {\n      \"description\": \"Challenge typical browser user agents\",\n      \"user-agent\": \"Mozilla*\"\n    },\n    {\n      \"description\": \"Challenge Chrome browsers\",\n      \"user-agent\": \"*Chrome*\"\n    },\n    {\n      \"description\": \"Challenge Firefox browsers\",\n      \"user-agent\": \"*Firefox*\"\n    },\n    {\n      \"description\": \"Challenge Safari browsers\",\n      \"user-agent\": \"*Safari*\"\n    },\n    {\n      \"description\": \"Challenge Edge browsers\",\n      \"user-agent\": \"*Edge*\"\n    },\n    {\n      \"description\": \"Rate limit all paths\",\n      \"path\": \"/*\",\n      \"rate_limit\": {\n        \"burst\": 10,\n        \"requests_per_minute\": 60\n      }\n    }\n  ],\n  \"config\": {\n    \"challenge_ttl\": 3600,\n    \"difficulty\": ";

/// The policy text between the difficulty and the Anubis flag.
pub const POLICY_AFTER_DIFFICULTY: &'static str = ",\n    \"javascript_challenge\": true,\n    \"max_challenge_attempts\": 3,\n    \"proof_of_work\": true,\n    \"rate_limit_window\": 60\n  },\n  \"metadata\": {\n    \"anubis_enabled\": ";

/// The policy text between the Anubis flag and the project name.
pub const POLICY_AFTER_FLAG: &'static str = ",\n    \"generated_by\": \"cerberus-rust\",\n    \"project_name\": ";

/// The end of the policy text.
pub const POLICY_END: &'static str = ",\n    \"version\": \"1.0.0\"\n  }\n}";

/// `true` or `false`.
pub open spec fn json_bool(b: bool) -> Seq<char> {
    if b { "true"@ } else { "false"@ }
}

/// The bot policy: fixed allow, challenge and block rules, the challenge
/// settings with the configured difficulty, and metadata naming the
/// project (given as a JSON string literal) and the Anubis flag.
pub open spec fn policy_text(quoted_name: Seq<char>, difficulty: u8, enabled: bool) -> Seq<char> {
    POLICY_RULES@ + decimal(difficulty as nat) + POLICY_AFTER_DIFFICULTY@ + json_bool(enabled)
        + POLICY_AFTER_FLAG@ + quoted_name + POLICY_END@
}

/// Writes the bot policy for a project name already quoted as a JSON string.
pub fn bot_policy_document(quoted_name: &str, difficulty: u8, enabled: bool) -> (r: String)
    ensures
        r@ == policy_text(quoted_name@, difficulty, enabled),
{
    let mut out = String::from_str(POLICY_RULES);
    out.append(decimal_string(difficulty as u64).as_str());
    out.append(POLICY_AFTER_DIFFICULTY);
    out.append(if enabled { "true" } else { "false" });
    out.append(POLICY_AFTER_FLAG);
    out.append(quoted_name);
    out.append(POLICY_END);
    out
}

/// The environment of the Anubis container.
pub open spec fn anubis_env_lines(a: AnubisConfig) -> Seq<Seq<char>> {
    seq![
        "ANUBIS_BIND="@ + a.bind@,
        "ANUBIS_TARGET="@ + a.target@,
        "ANUBIS_DIFFICULTY="@ + decimal(a.difficulty as nat),
        "ANUBIS_METRICS_BIND="@ + a.metrics_bind@,
        "ANUBIS_LOG_LEVEL=INFO"@,
        "ANUBIS_CHALLENGE_TTL=3600"@,
        "ANUBIS_RATE_LIMIT_WINDOW=60"@,
        "ANUBIS_MAX_CHALLENGE_ATTEMPTS=3"@,
        "USE_REMOTE_ADDRESS=true"@,
    ]
}

/// Generator of the Anubis artifacts of a configuration.
pub struct AnubisGenerator<'a> {
    pub config: &'a Config,
}

impl<'a> AnubisGenerator<'a> {
    /// A generator for `config`.
    pub fn new(config: &'a Config) -> (r: Self)
        ensures
            *r.config == *config,
    {
        AnubisGenerator { config }
    }

    /// The bot policy document of the configuration.
    pub fn generate(&self) -> (r: Result<String, CerberusError>)
        ensures
            r is Ok,
            r->Ok_0@ == policy_text(json_string_literal(self.config.project.name@),
                self.config.anubis.difficulty, self.config.anubis.enabled),
    {
        let quoted = json_quote(self.config.project.name.as_str());
        Ok(bot_policy_document(quoted.as_str(), self.config.anubis.difficulty, self.config.anubis.enabled))
    }

    /// The environment of the Anubis container, as `KEY=value` lines.
    pub fn generate_env_config(&self) -> (r: Result<Vec<String>, CerberusError>)
        ensures
            r is Ok,
            str_views(r->Ok_0@) == anubis_env_lines(self.config.anubis),
    {
        let a = &self.config.anubis;
        let mut v: Vec<String> = Vec::new();
        v.push(join2("ANUBIS_BIND=", a.bind.as_str()));
        v.push(join2("ANUBIS_TARGET=", a.target.as_str()));
        v.push(join2("ANUBIS_DIFFICULTY=", decimal_string(a.difficulty as u64).as_str()));
        v.push(join2("ANUBIS_METRICS_BIND=", a.metrics_bind.as_str()));
        v.push(String::from_str("ANUBIS_LOG_LEVEL=INFO"));
        v.push(String::from_str("ANUBIS_CHALLENGE_TTL=3600"));
        v.push(String::from_str("ANUBIS_RATE_LIMIT_WINDOW=60"));
        v.push(String::from_str("ANUBIS_MAX_CHALLENGE_ATTEMPTS=3"));
        v.push(String::from_str("USE_REMOTE_ADDRESS=true"));
        assert(str_views(v@) =~= anubis_env_lines(self.config.anubis));
        Ok(v)
    }
}

} // verus!

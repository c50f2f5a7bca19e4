//! What the operator configures.

use vstd::prelude::*;

use crate::key_order::{order_text, KeyOrder};
use crate::ordmap::{clone_keeps_view, OrdMap};
use crate::protocol::optional_text;

verus! {

/// The service name under which spans are exported unless the operator sets another.
pub const DEFAULT_SERVICE_NAME: &'static str = "mcpg";

/// The per-export timeout unless the operator sets another.
pub const DEFAULT_EXPORT_TIMEOUT_MS: u64 = 30_000;

/// The operator's `config:` block.
#[derive(Debug)]
pub struct OtlpSinkConfig {
    /// OTLP gRPC endpoint, e.g. `http://otel-collector:4317`. While it is empty the sink runs
    /// in degraded mode: spans are dropped.
    pub url: String,
    /// The `service.name` resource attribute.
    pub service_name: String,
    /// The `service.version` resource attribute, if any.
    pub service_version: Option<String>,
    /// Further resource attributes, e.g. `deployment.environment: prod`.
    pub resource_attributes: OrdMap<String, String>,
    /// Timeout of each OTLP gRPC call.
    pub batch_export_timeout_ms: u64,
}

/// What an [`OtlpSinkConfig`] says; resource attributes in ascending key order.
pub struct ConfigView {
    pub url: Seq<char>,
    pub service_name: Seq<char>,
    pub service_version: Option<Seq<char>>,
    pub resource_attributes: Seq<(Seq<char>, Seq<char>)>,
    pub batch_export_timeout_ms: u64,
}

impl View for OtlpSinkConfig {
    type V = ConfigView;

    open spec fn view(&self) -> ConfigView {
        ConfigView {
            url: self.url@,
            service_name: self.service_name@,
            service_version: optional_text(self.service_version),
            resource_attributes: self.resource_attributes.pairs(),
            batch_export_timeout_ms: self.batch_export_timeout_ms,
        }
    }
}

/// The configuration of an operator who sets nothing.
pub open spec fn default_config() -> ConfigView {
    ConfigView {
        url: Seq::empty(),
        service_name: DEFAULT_SERVICE_NAME@,
        service_version: None,
        resource_attributes: Seq::empty(),
        batch_export_timeout_ms: DEFAULT_EXPORT_TIMEOUT_MS,
    }
}

impl Default for OtlpSinkConfig {
    fn default() -> (config: Self)
        ensures
            config@ == default_config(),
    {
        OtlpSinkConfig {
            url: String::new(),
            service_name: DEFAULT_SERVICE_NAME.to_owned(),
            service_version: None,
            resource_attributes: OrdMap::new(),
            batch_export_timeout_ms: DEFAULT_EXPORT_TIMEOUT_MS,
        }
    }
}

impl Clone for OtlpSinkConfig {
    fn clone(&self) -> (copy: Self)
        ensures
            copy@ == self@,
    {
        let service_version = match &self.service_version {
            Some(version) => Some(version.clone()),
            None => None,
        };
        let resource_attributes = self.resource_attributes.clone();
        assert(clone_keeps_view::<String>());
        OtlpSinkConfig {
            url: self.url.clone(),
            service_name: self.service_name.clone(),
            service_version,
            resource_attributes,
            batch_export_timeout_ms: self.batch_export_timeout_ms,
        }
    }
}

/// The characters with the Unicode property `White_Space`.
pub open spec fn is_white_space(c: char) -> bool {
    let code = c as u32;
    ||| 0x9 <= code <= 0xd
    ||| code == 0x20
    ||| code == 0x85
    ||| code == 0xa0
    ||| code == 0x1680
    ||| 0x2000 <= code <= 0x200a
    ||| code == 0x2028
    ||| code == 0x2029
    ||| code == 0x202f
    ||| code == 0x205f
    ||| code == 0x3000
}

/// `s` without the white space at its two ends.
pub open spec fn strip(s: Seq<char>) -> Seq<char>
    decreases s.len(),
{
    if s.len() == 0 {
        s
    } else if is_white_space(s.first()) {
        strip(s.drop_first())
    } else if is_white_space(s.last()) {
        strip(s.drop_last())
    } else {
        s
    }
}

/// `str::trim`: the string without leading and trailing white space.
#[verifier::external_body]
fn trimmed(text: &str) -> (stripped: &str)
    ensures
        stripped@ == strip(text@),
{
    text.trim()
}

/// The block holds no configuration: it is blank, an empty object or `null`.
pub open spec fn opts_out(config_json: Seq<char>) -> bool {
    let stripped = strip(config_json);
    stripped.len() == 0 || stripped == "{}"@ || stripped == "null"@
}

/// Whether a `config:` block leaves everything at its default.
pub fn is_opt_out(config_json: &str) -> (result: bool)
    ensures
        result == opts_out(config_json@),
        result <==> strip(config_json@) == Seq::<char>::empty() || strip(config_json@) == "{}"@
            || strip(config_json@) == "null"@,
{
    let stripped = trimmed(config_json);
    if stripped.is_empty() {
        assert(stripped@ =~= Seq::<char>::empty());
        return true;
    }
    if let KeyOrder::Same = order_text(stripped, "{}") {
        return true;
    }
    if let KeyOrder::Same = order_text(stripped, "null") {
        true
    } else {
        false
    }
}

/// A `config:` block was refused.
#[derive(Debug)]
pub struct ConfigRefused {
    pub message: String,
}

/// What the operator is told of a refused block, ahead of the reason.
pub const REFUSAL_PREFIX: &'static str = "invalid plugin config, failing closed: ";

/// Settles on a configuration, given the block and what decoding it came to. A block that
/// opts out yields the defaults, whatever its decoding came to; any other block that does
/// not decode is refused.
pub fn settle_config(config_json: &str, decoded: Result<OtlpSinkConfig, String>) -> (settled: Result<
    OtlpSinkConfig,
    ConfigRefused,
>)
    ensures
        match settled {
            Ok(config) => config@ == (if opts_out(config_json@) {
                default_config()
            } else {
                decoded->Ok_0@
            }),
            Err(refused) => refused.message@ == REFUSAL_PREFIX@ + decoded->Err_0@,
        },
        settled is Err <==> !opts_out(config_json@) && decoded is Err,
        if strip(config_json@) == Seq::<char>::empty() || strip(config_json@) == "{}"@ || strip(
            config_json@,
        ) == "null"@ {
            settled matches Ok(config) && config@ == default_config()
        } else {
            match decoded {
                Ok(given) => settled matches Ok(config) && config@ == given@,
                Err(reason) => settled matches Err(refused) && refused.message@
                    == REFUSAL_PREFIX@ + reason@,
            }
        },
{
    if is_opt_out(config_json) {
        return Ok(OtlpSinkConfig::default());
    }
    match decoded {
        Ok(config) => Ok(config),
        Err(reason) => {
            let mut message: String = REFUSAL_PREFIX.to_owned();
            message.append(reason.as_str());
            Err(ConfigRefused { message })
        },
    }
}

/// In ASCII the white space is the space and the five controls from tab to carriage return, so
/// no visible character is; beyond it there are the next line, the no-break space and the
/// seventeen separators from the Ogham space mark to the ideographic space.
pub proof fn white_space_is_invisible(c: char)
    ensures
        0x21 <= c as u32 <= 0x7e ==> !is_white_space(c),
        c as u32 <= 0x7f ==> (is_white_space(c) <==> c == ' ' || '\t' as u32 <= c as u32
            <= '\r' as u32),
        0x80 <= (c as u32) < 0x1680 ==> (is_white_space(c) <==> c == '\u{85}' || c == '\u{a0}'),
        c as u32 >= 0x1680 ==> (is_white_space(c) <==> c == '\u{1680}' || '\u{2000}' as u32
            <= c as u32 <= '\u{200a}' as u32 || c == '\u{2028}' || c == '\u{2029}' || c
            == '\u{202f}' || c == '\u{205f}' || c == '\u{3000}'),
{
}

/// Stripping cuts the white space at the two ends and nothing else: whatever white space is
/// put around a text that neither begins nor ends with any, stripping gives back the text.
pub proof fn stripping_undoes_padding(left: Seq<char>, text: Seq<char>, right: Seq<char>)
    requires
        forall|i: int| 0 <= i < left.len() ==> is_white_space(#[trigger] left[i]),
        forall|i: int| 0 <= i < right.len() ==> is_white_space(#[trigger] right[i]),
        text.len() == 0 || (!is_white_space(text.first()) && !is_white_space(text.last())),
    ensures
        strip(left + text + right) == text,
    decreases right.len(), left.len(),
{
    let s = left + text + right;
    if left.len() > 0 {
        assert(s.first() == left[0]);
        assert(s.drop_first() =~= left.drop_first() + text + right);
        assert forall|i: int| 0 <= i < left.drop_first().len() implies is_white_space(
            #[trigger] left.drop_first()[i],
        ) by {
            assert(left.drop_first()[i] == left[i + 1]);
        }
        stripping_undoes_padding(left.drop_first(), text, right);
    } else if text.len() == 0 {
        if right.len() > 0 {
            assert(s =~= right + text + left);
            stripping_undoes_padding(right, text, left);
        } else {
            assert(s =~= text);
        }
    } else {
        assert(s.first() == text.first());
        if right.len() > 0 {
            assert(s.last() == right.last());
            assert(s.drop_last() =~= left + text + right.drop_last());
            stripping_undoes_padding(left, text, right.drop_last());
        } else {
            assert(s =~= text);
        }
    }
}

/// A block holds no configuration exactly if, stripped, it is empty, `{}` or `null`.
pub proof fn opting_out_takes_one_of_three(block: Seq<char>)
    ensures
        opts_out(block) <==> strip(block) == Seq::<char>::empty() || strip(block) == "{}"@
            || strip(block) == "null"@,
{
    if opts_out(block) && strip(block).len() == 0 {
        assert(strip(block) =~= Seq::<char>::empty());
    }
}

/// White space around a block changes nothing: a text that neither begins nor ends with any
/// holds no configuration exactly if it is empty, `{}` or `null`, however it is padded.
pub proof fn padding_does_not_opt_out(left: Seq<char>, text: Seq<char>, right: Seq<char>)
    requires
        forall|i: int| 0 <= i < left.len() ==> is_white_space(#[trigger] left[i]),
        forall|i: int| 0 <= i < right.len() ==> is_white_space(#[trigger] right[i]),
        text.len() == 0 || (!is_white_space(text.first()) && !is_white_space(text.last())),
    ensures
        opts_out(left + text + right) <==> text.len() == 0 || text == seq!['{', '}'] || text
            == seq!['n', 'u', 'l', 'l'],
{
    stripping_undoes_padding(left, text, right);
    reveal_strlit("{}");
    reveal_strlit("null");
    assert("{}"@ =~= seq!['{', '}']);
    assert("null"@ =~= seq!['n', 'u', 'l', 'l']);
}

/// An operator who sets nothing gets no endpoint, the service name `mcpg`, no service version,
/// no further attributes and a timeout of thirty seconds.
pub proof fn defaults_are_as_documented(config: OtlpSinkConfig)
    requires
        config@ == default_config(),
    ensures
        config.url@.len() == 0,
        config.service_name@ == "mcpg"@,
        config.service_version is None,
        config.resource_attributes.pairs().len() == 0,
        config.batch_export_timeout_ms == 30_000,
{
}

/// The model of a configuration says of each field what the field holds.
pub proof fn config_is_seen_whole(config: OtlpSinkConfig)
    ensures
        config@.url == config.url@,
        config@.service_name == config.service_name@,
        config@.service_version is Some <==> config.service_version is Some,
        config.service_version matches Some(version) ==> config@.service_version->0 == version@,
        config@.resource_attributes == config.resource_attributes.pairs(),
        config@.batch_export_timeout_ms == config.batch_export_timeout_ms,
{
}

/// A refused block is reported with the words that it fails closed, then the reason.
pub proof fn refusal_says_so(message: Seq<char>, reason: Seq<char>)
    requires
        message == REFUSAL_PREFIX@ + reason,
    ensures
        message == "invalid plugin config, failing closed: "@ + reason,
{
}

} // verus!

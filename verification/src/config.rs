//! The configuration of the service, read once at startup from the values
//! of its environment variables.

use crate::api::texts;
use vstd::prelude::*;
use vstd::string::*;

verus! {

/// The port that the read API listens on where none is configured.
pub const DEFAULT_PORT: u16 = 8000;

/// The variables that configure the service.
#[derive(Clone, Copy, Debug, PartialEq, Eq)]
pub enum Variable {
    Port,
    RpcUrl,
    FeePayerPrivateKey,
    StakePoolAddress,
    SlackToken,
    SlackChannelId,
}

/// Why the service cannot start.
#[derive(Clone, Copy, Debug, PartialEq, Eq)]
pub enum ConfigError {
    /// `PORT` is set, but to no number from 0 to 65535.
    InvalidPort,
    /// A variable that the service needs is not set.
    Missing(Variable),
}

/// The name of a variable in the environment.
pub open spec fn variable_name(variable: Variable) -> Seq<char> {
    match variable {
        Variable::Port => "PORT"@,
        Variable::RpcUrl => "RPC_URL"@,
        Variable::FeePayerPrivateKey => "FEE_PAYER_PRIVATE_KEY"@,
        Variable::StakePoolAddress => "STAKE_POOL_ADDRESS"@,
        Variable::SlackToken => "SLACK_TOKEN"@,
        Variable::SlackChannelId => "SLACK_CHANNEL_ID"@,
    }
}

impl Variable {
    /// The name of the variable in the environment.
    pub fn name(self) -> (name: &'static str)
        ensures
            name@ == variable_name(self),
    {
        match self {
            Variable::Port => "PORT",
            Variable::RpcUrl => "RPC_URL",
            Variable::FeePayerPrivateKey => "FEE_PAYER_PRIVATE_KEY",
            Variable::StakePoolAddress => "STAKE_POOL_ADDRESS",
            Variable::SlackToken => "SLACK_TOKEN",
            Variable::SlackChannelId => "SLACK_CHANNEL_ID",
        }
    }
}

/// The values of the variables, each as it was found.
#[derive(Debug, PartialEq, Eq)]
pub struct Environment {
    pub port: Option<String>,
    pub rpc_url: Option<String>,
    pub fee_payer_private_key: Option<String>,
    pub stake_pool_address: Option<String>,
    pub slack_token: Option<String>,
    pub slack_channel_id: Option<String>,
}

/// The text of a value, where there is one.
pub open spec fn text_of(value: Option<String>) -> Option<Seq<char>> {
    match value {
        Some(text) => Some(text@),
        None => None,
    }
}

/// The values of the variables, as sequences of characters.
pub struct EnvironmentView {
    pub port: Option<Seq<char>>,
    pub rpc_url: Option<Seq<char>>,
    pub fee_payer_private_key: Option<Seq<char>>,
    pub stake_pool_address: Option<Seq<char>>,
    pub slack_token: Option<Seq<char>>,
    pub slack_channel_id: Option<Seq<char>>,
}

impl View for Environment {
    type V = EnvironmentView;

    open spec fn view(&self) -> EnvironmentView {
        EnvironmentView {
            port: text_of(self.port),
            rpc_url: text_of(self.rpc_url),
            fee_payer_private_key: text_of(self.fee_payer_private_key),
            stake_pool_address: text_of(self.stake_pool_address),
            slack_token: text_of(self.slack_token),
            slack_channel_id: text_of(self.slack_channel_id),
        }
    }
}

/// The configuration of the service.
#[derive(Debug, PartialEq, Eq)]
pub struct StakePoolConfig {
    pub port: u16,
    pub rpc_url: String,
    pub fee_payer_private_key: String,
    /// The pools to keep up to date, each by the base58 text of its address.
    pub stake_pool_address: Vec<String>,
    pub slack_token: String,
    pub slack_channel_id: String,
}

/// A configuration, as sequences of characters.
pub struct StakePoolConfigView {
    pub port: u16,
    pub rpc_url: Seq<char>,
    pub fee_payer_private_key: Seq<char>,
    pub stake_pool_address: Seq<Seq<char>>,
    pub slack_token: Seq<char>,
    pub slack_channel_id: Seq<char>,
}

impl View for StakePoolConfig {
    type V = StakePoolConfigView;

    open spec fn view(&self) -> StakePoolConfigView {
        StakePoolConfigView {
            port: self.port,
            rpc_url: self.rpc_url@,
            fee_payer_private_key: self.fee_payer_private_key@,
            stake_pool_address: texts(self.stake_pool_address@),
            slack_token: self.slack_token@,
            slack_channel_id: self.slack_channel_id@,
        }
    }
}

impl Clone for StakePoolConfig {
    fn clone(&self) -> (copy: Self)
        ensures
            copy@ == self@,
    {
        let copy = StakePoolConfig {
            port: self.port,
            rpc_url: self.rpc_url.clone(),
            fee_payer_private_key: self.fee_payer_private_key.clone(),
            stake_pool_address: self.stake_pool_address.clone(),
            slack_token: self.slack_token.clone(),
            slack_channel_id: self.slack_channel_id.clone(),
        };
        proof {
            assert(texts(copy.stake_pool_address@) =~= texts(self.stake_pool_address@));
        }
        copy
    }
}

impl Default for StakePoolConfig {
    fn default() -> (config: Self)
        ensures
            config@ == (StakePoolConfigView {
                port: 0,
                rpc_url: Seq::empty(),
                fee_payer_private_key: Seq::empty(),
                stake_pool_address: Seq::empty(),
                slack_token: Seq::empty(),
                slack_channel_id: Seq::empty(),
            }),
    {
        let config = StakePoolConfig {
            port: 0,
            rpc_url: String::new(),
            fee_payer_private_key: String::new(),
            stake_pool_address: Vec::new(),
            slack_token: String::new(),
            slack_channel_id: String::new(),
        };
        proof {
            assert(texts(config.stake_pool_address@) =~= Seq::<Seq<char>>::empty());
        }
        config
    }
}

/// The number that a decimal digit stands for.
pub open spec fn digit_value(c: char) -> Option<nat> {
    if 48 <= c as u32 <= 57 {
        Some((c as u32 - 48) as nat)
    } else {
        None
    }
}

/// The number that a run of decimal digits stands for; the empty run stands
/// for 0, and a run with anything but digits in it for nothing.
pub open spec fn decimal_value(digits: Seq<char>) -> Option<nat>
    decreases digits.len(),
{
    if digits.len() == 0 {
        Some(0)
    } else {
        match (decimal_value(digits.drop_last()), digit_value(digits.last())) {
            (Some(value), Some(digit)) => Some(10 * value + digit),
            _ => None,
        }
    }
}

/// The port that a text stands for: digits, at least one, after at most one
/// `+`, that make a number up to 65535.
pub open spec fn parse_port(text: Seq<char>) -> Option<u16> {
    let digits = if text.len() > 0 && text[0] == '+' {
        text.drop_first()
    } else {
        text
    };
    if digits.len() == 0 {
        None
    } else {
        match decimal_value(digits) {
            Some(value) => if value <= u16::MAX {
                Some(value as u16)
            } else {
                None
            },
            None => None,
        }
    }
}

/// White space, as Unicode defines it.
pub open spec fn is_space(c: char) -> bool {
    let code = c as u32;
    ||| 0x9 <= code <= 0xD
    ||| code == 0x20
    ||| code == 0x85
    ||| code == 0xA0
    ||| code == 0x1680
    ||| 0x2000 <= code <= 0x200A
    ||| code == 0x2028
    ||| code == 0x2029
    ||| code == 0x202F
    ||| code == 0x205F
    ||| code == 0x3000
}

/// A text without the white space at its start.
pub open spec fn trim_start(text: Seq<char>) -> Seq<char>
    decreases text.len(),
{
    if text.len() > 0 && is_space(text.first()) {
        trim_start(text.drop_first())
    } else {
        text
    }
}

/// A text without the white space at its end.
pub open spec fn trim_end(text: Seq<char>) -> Seq<char>
    decreases text.len(),
{
    if text.len() > 0 && is_space(text.last()) {
        trim_end(text.drop_last())
    } else {
        text
    }
}

/// A text without the white space at either end.
pub open spec fn trimmed(text: Seq<char>) -> Seq<char> {
    trim_end(trim_start(text))
}

/// The place of the first comma in a text, or its length where it has none.
pub open spec fn first_comma(text: Seq<char>) -> int
    decreases text.len(),
{
    if text.len() == 0 || text[0] == ',' {
        0
    } else {
        1 + first_comma(text.drop_first())
    }
}

/// The pools that a comma-separated list names: every entry without the
/// white space around it, the empty ones left out.
pub open spec fn pool_addresses(text: Seq<char>) -> Seq<Seq<char>>
    decreases text.len(),
{
    let cut = first_comma(text);
    if 0 <= cut <= text.len() {
        let entry = trimmed(text.take(cut));
        let rest = if cut < text.len() {
            pool_addresses(text.skip(cut + 1))
        } else {
            Seq::empty()
        };
        if entry.len() > 0 {
            seq![entry] + rest
        } else {
            rest
        }
    } else {
        Seq::empty()
    }
}

/// The port that the service listens on: the default where `PORT` is not
/// set.
pub open spec fn configured_port(value: Option<Seq<char>>) -> Result<u16, ConfigError> {
    match value {
        None => Ok(DEFAULT_PORT),
        Some(text) => match parse_port(text) {
            Some(port) => Ok(port),
            None => Err(ConfigError::InvalidPort),
        },
    }
}

/// The configuration that an environment gives. A port that is no port
/// comes first among the errors; after it the first variable that is
/// missing, in the order in which the configuration lists them.
pub open spec fn configured(environment: EnvironmentView) -> Result<StakePoolConfigView, ConfigError> {
    match configured_port(environment.port) {
        Err(error) => Err(error),
        Ok(port) => if environment.rpc_url is None {
            Err(ConfigError::Missing(Variable::RpcUrl))
        } else if environment.fee_payer_private_key is None {
            Err(ConfigError::Missing(Variable::FeePayerPrivateKey))
        } else if environment.stake_pool_address is None {
            Err(ConfigError::Missing(Variable::StakePoolAddress))
        } else if environment.slack_token is None {
            Err(ConfigError::Missing(Variable::SlackToken))
        } else if environment.slack_channel_id is None {
            Err(ConfigError::Missing(Variable::SlackChannelId))
        } else {
            Ok(
                StakePoolConfigView {
                    port,
                    rpc_url: environment.rpc_url.unwrap(),
                    fee_payer_private_key: environment.fee_payer_private_key.unwrap(),
                    stake_pool_address: pool_addresses(environment.stake_pool_address.unwrap()),
                    slack_token: environment.slack_token.unwrap(),
                    slack_channel_id: environment.slack_channel_id.unwrap(),
                },
            )
        },
    }
}

proof fn lemma_decimal_prefix(digits: Seq<char>, len: int)
    requires
        0 <= len <= digits.len(),
        decimal_value(digits) is Some,
    ensures
        decimal_value(digits.take(len)) is Some,
        decimal_value(digits.take(len)).unwrap() <= decimal_value(digits).unwrap(),
    decreases digits.len(),
{
    if len == digits.len() {
        assert(digits.take(len) =~= digits);
    } else {
        assert(digits.drop_last().take(len) =~= digits.take(len));
        lemma_decimal_prefix(digits.drop_last(), len);
    }
}

proof fn lemma_first_comma_found(text: Seq<char>, place: int)
    requires
        0 <= place <= text.len(),
        forall|k: int| 0 <= k < place ==> text[k] != ',',
        place < text.len() ==> text[place] == ',',
    ensures
        first_comma(text) == place,
    decreases place,
{
    if place > 0 {
        let rest = text.drop_first();
        assert forall|k: int| 0 <= k < place - 1 implies rest[k] != ',' by {
            assert(rest[k] == text[k + 1]);
        }
        lemma_first_comma_found(rest, place - 1);
    }
}

fn is_whitespace(c: char) -> (space: bool)
    ensures
        space == is_space(c),
{
    let code: u32 = c as u32;
    (0x9 <= code && code <= 0xD) || code == 0x20 || code == 0x85 || code == 0xA0 || code == 0x1680
        || (0x2000 <= code && code <= 0x200A) || code == 0x2028 || code == 0x2029 || code
        == 0x202F || code == 0x205F || code == 0x3000
}

/// Reads a port from its text.
pub fn port_from_text(text: &str) -> (port: Option<u16>)
    ensures
        port == parse_port(text@),
{
    let len = text.unicode_len();
    let mut i: usize = 0;
    if len > 0 && text.get_char(0) == '+' {
        i = 1;
    }
    let first = i;
    let ghost digits = if first == 1 {
        text@.drop_first()
    } else {
        text@
    };
    if i == len {
        return None;
    }
    proof {
        assert(digits =~= text@.skip(first as int));
        assert(digits.take(0) =~= Seq::<char>::empty());
    }
    let mut value: u32 = 0;
    while i < len
        invariant
            first <= i <= len,
            first <= 1,
            len == text@.len(),
            digits == text@.skip(first as int),
            digits == if text@.len() > 0 && text@[0] == '+' {
                text@.drop_first()
            } else {
                text@
            },
            digits.len() == len - first,
            digits.len() > 0,
            decimal_value(digits.take(i - first)) == Some(value as nat),
            value <= u16::MAX,
        decreases len - i,
    {
        let code: u32 = text.get_char(i) as u32;
        proof {
            let next = digits.take(i - first + 1);
            assert(next.drop_last() =~= digits.take(i - first));
            assert(next.last() == text@[i as int]);
        }
        if code < 48 || code > 57 {
            proof {
                if decimal_value(digits) is Some {
                    lemma_decimal_prefix(digits, i - first + 1);
                }
            }
            return None;
        }
        let next: u32 = 10 * value + (code - 48);
        if next > 65535 {
            proof {
                if decimal_value(digits) is Some {
                    lemma_decimal_prefix(digits, i - first + 1);
                }
            }
            return None;
        }
        value = next;
        i = i + 1;
    }
    proof {
        assert(digits.take(len - first) =~= digits);
    }
    Some(value as u16)
}

fn trimmed_entry(text: &str, from: usize, to: usize) -> (entry: String)
    requires
        from <= to <= text@.len(),
    ensures
        entry@ == trimmed(text@.subrange(from as int, to as int)),
{
    let ghost whole = text@.subrange(from as int, to as int);
    let mut start = from;
    while start < to && is_whitespace(text.get_char(start))
        invariant
            from <= start <= to <= text@.len(),
            trim_start(whole) == trim_start(text@.subrange(start as int, to as int)),
        decreases to - start,
    {
        proof {
            let current = text@.subrange(start as int, to as int);
            assert(current.drop_first() =~= text@.subrange(start as int + 1, to as int));
        }
        start = start + 1;
    }
    let ghost front = text@.subrange(start as int, to as int);
    assert(trim_start(whole) == front);
    let mut end = to;
    while end > start && is_whitespace(text.get_char(end - 1))
        invariant
            start <= end <= to <= text@.len(),
            trim_end(front) == trim_end(text@.subrange(start as int, end as int)),
        decreases end - start,
    {
        proof {
            let current = text@.subrange(start as int, end as int);
            assert(current.drop_last() =~= text@.subrange(start as int, end as int - 1));
        }
        end = end - 1;
    }
    String::from_str(text.substring_char(start, end))
}

/// Reads the pools that a comma-separated list names.
pub fn pool_addresses_from_text(text: &str) -> (pools: Vec<String>)
    ensures
        texts(pools@) == pool_addresses(text@),
{
    let len = text.unicode_len();
    let mut pools: Vec<String> = Vec::new();
    let mut start: usize = 0;
    let mut i: usize = 0;
    proof {
        assert(text@.skip(0) =~= text@);
        assert(texts(pools@) =~= Seq::<Seq<char>>::empty());
    }
    while i < len
        invariant
            start <= i <= len,
            len == text@.len(),
            forall|k: int| start <= k < i ==> text@[k] != ',',
            pool_addresses(text@) == texts(pools@) + pool_addresses(text@.skip(start as int)),
        decreases len - i,
    {
        if text.get_char(i) == ',' {
            let entry = trimmed_entry(text, start, i);
            proof {
                let rest = text@.skip(start as int);
                assert forall|k: int| 0 <= k < i - start implies rest[k] != ',' by {
                    assert(rest[k] == text@[start + k]);
                }
                lemma_first_comma_found(rest, i - start);
                assert(rest.take(i - start) =~= text@.subrange(start as int, i as int));
                assert(rest.skip(i - start + 1) =~= text@.skip(i as int + 1));
            }
            let ghost before = pools@;
            if entry.as_str().unicode_len() > 0 {
                pools.push(entry);
                proof {
                    assert(texts(pools@) =~= texts(before) + seq![entry@]);
                    assert(texts(pools@) + pool_addresses(text@.skip(i as int + 1)) =~= texts(before)
                        + (seq![entry@] + pool_addresses(text@.skip(i as int + 1))));
                }
            }
            start = i + 1;
        }
        i = i + 1;
    }
    let entry = trimmed_entry(text, start, len);
    proof {
        let rest = text@.skip(start as int);
        assert forall|k: int| 0 <= k < len - start implies rest[k] != ',' by {
            assert(rest[k] == text@[start + k]);
        }
        lemma_first_comma_found(rest, len - start);
        assert(rest.take(len - start) =~= text@.subrange(start as int, len as int));
    }
    let ghost before = pools@;
    if entry.as_str().unicode_len() > 0 {
        pools.push(entry);
        proof {
            assert(texts(pools@) =~= texts(before) + seq![entry@]);
            assert(seq![entry@] + Seq::<Seq<char>>::empty() =~= seq![entry@]);
        }
    } else {
        proof {
            assert(texts(before) + Seq::<Seq<char>>::empty() =~= texts(before));
        }
    }
    pools
}

/// What reading the configuration came to, and what it should come to.
pub open spec fn is_configuration(
    read: Result<StakePoolConfig, ConfigError>,
    expected: Result<StakePoolConfigView, ConfigError>,
) -> bool {
    match read {
        Ok(config) => expected == Ok::<StakePoolConfigView, ConfigError>(config@),
        Err(error) => expected == Err::<StakePoolConfigView, ConfigError>(error),
    }
}

impl StakePoolConfig {
    /// Reads the configuration from the values of the environment
    /// variables. `PORT` may be left out; every other variable must be set.
    pub fn get_config(environment: Environment) -> (config: Result<StakePoolConfig, ConfigError>)
        ensures
            is_configuration(config, configured(environment@)),
    {
        let port = match &environment.port {
            None => DEFAULT_PORT,
            Some(text) => match port_from_text(text.as_str()) {
                Some(port) => port,
                None => {
                    return Err(ConfigError::InvalidPort);
                },
            },
        };
        let rpc_url = match environment.rpc_url {
            Some(value) => value,
            None => {
                return Err(ConfigError::Missing(Variable::RpcUrl));
            },
        };
        let fee_payer_private_key = match environment.fee_payer_private_key {
            Some(value) => value,
            None => {
                return Err(ConfigError::Missing(Variable::FeePayerPrivateKey));
            },
        };
        let stake_pool_address = match &environment.stake_pool_address {
            Some(value) => pool_addresses_from_text(value.as_str()),
            None => {
                return Err(ConfigError::Missing(Variable::StakePoolAddress));
            },
        };
        let slack_token = match environment.slack_token {
            Some(value) => value,
            None => {
                return Err(ConfigError::Missing(Variable::SlackToken));
            },
        };
        let slack_channel_id = match environment.slack_channel_id {
            Some(value) => value,
            None => {
                return Err(ConfigError::Missing(Variable::SlackChannelId));
            },
        };
        Ok(
            StakePoolConfig {
                port,
                rpc_url,
                fee_payer_private_key,
                stake_pool_address,
                slack_token,
                slack_channel_id,
            },
        )
    }
}

/// The first comma of a text lies within it or at its end, and no comma
/// comes before it.
pub proof fn lemma_first_comma(text: Seq<char>)
    ensures
        0 <= first_comma(text) <= text.len(),
        forall|k: int| 0 <= k < first_comma(text) ==> text[k] != ',',
        first_comma(text) < text.len() ==> text[first_comma(text)] == ',',
    decreases text.len(),
{
    if text.len() > 0 && text[0] != ',' {
        let rest = text.drop_first();
        lemma_first_comma(rest);
        assert forall|k: int| 0 <= k < first_comma(text) implies text[k] != ',' by {
            if k > 0 {
                assert(text[k] == rest[k - 1]);
            }
        }
    }
}

/// Trimming takes characters away at the two ends only: what is left is a
/// stretch of the text, and where anything is left, it neither begins nor
/// ends with white space.
pub proof fn lemma_trimmed(text: Seq<char>)
    ensures
        exists|from: int, to: int|
            0 <= from <= to <= text.len() && trimmed(text) == text.subrange(from, to),
        trimmed(text).len() > 0 ==> !is_space(trimmed(text).first()) && !is_space(
            trimmed(text).last(),
        ),
{
    lemma_trim_start(text);
    let front = trim_start(text);
    lemma_trim_end(front);
    let from = choose|from: int| 0 <= from <= text.len() && front == text.skip(from);
    let to = choose|to: int| 0 <= to <= front.len() && trim_end(front) == front.take(to);
    assert(front.take(to) =~= text.subrange(from, from + to));
    if trimmed(text).len() > 0 {
        assert(trimmed(text).first() == front.first());
    }
}

proof fn lemma_trim_start(text: Seq<char>)
    ensures
        exists|from: int| 0 <= from <= text.len() && trim_start(text) == text.skip(from),
        trim_start(text).len() > 0 ==> !is_space(trim_start(text).first()),
    decreases text.len(),
{
    if text.len() > 0 && is_space(text.first()) {
        let rest = text.drop_first();
        lemma_trim_start(rest);
        let inner = choose|from: int| 0 <= from <= rest.len() && trim_start(rest) == rest.skip(from);
        assert(rest.skip(inner) =~= text.skip(inner + 1));
    } else {
        assert(text.skip(0) =~= text);
    }
}

proof fn lemma_trim_end(text: Seq<char>)
    ensures
        exists|to: int| 0 <= to <= text.len() && trim_end(text) == text.take(to),
        trim_end(text).len() > 0 ==> !is_space(trim_end(text).last()) && trim_end(text).first()
            == text.first(),
    decreases text.len(),
{
    if text.len() > 0 && is_space(text.last()) {
        let rest = text.drop_last();
        lemma_trim_end(rest);
        let inner = choose|to: int| 0 <= to <= rest.len() && trim_end(rest) == rest.take(to);
        assert(rest.take(inner) =~= text.take(inner));
    } else {
        assert(text.take(text.len() as int) =~= text);
    }
}

/// Every pool that a list names is a name: it is not empty, holds no comma,
/// and neither begins nor ends with white space.
pub proof fn lemma_pool_addresses_are_names(text: Seq<char>, i: int)
    requires
        0 <= i < pool_addresses(text).len(),
    ensures
        pool_addresses(text)[i].len() > 0,
        !is_space(pool_addresses(text)[i].first()),
        !is_space(pool_addresses(text)[i].last()),
        forall|k: int| 0 <= k < pool_addresses(text)[i].len() ==> pool_addresses(text)[i][k] != ',',
    decreases text.len(),
{
    lemma_first_comma(text);
    let cut = first_comma(text);
    let entry = trimmed(text.take(cut));
    lemma_trimmed(text.take(cut));
    if entry.len() > 0 && i == 0 {
        let (from, to) = choose|from: int, to: int|
            0 <= from <= to <= text.take(cut).len() && entry == text.take(cut).subrange(from, to);
        assert forall|k: int| 0 <= k < entry.len() implies entry[k] != ',' by {
            assert(entry[k] == text[from + k]);
        }
    } else {
        let rest = text.skip(cut + 1);
        let shift: int = if entry.len() > 0 {
            1
        } else {
            0
        };
        assert(cut < text.len());
        assert(pool_addresses(text)[i] == pool_addresses(rest)[i - shift]);
        lemma_pool_addresses_are_names(rest, i - shift);
    }
}

} // verus!
